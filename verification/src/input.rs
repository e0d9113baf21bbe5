//! Held input actions and the per-frame decisions derived from them.
//!
//! The shell around the library maps raw key and button codes to these
//! logical actions at its boundary; the library only sees which actions are
//! currently held and decides, purely, which way to pan and zoom.

use vstd::prelude::*;

verus! {

/// A logical action the user can hold down.
#[derive(Clone, Copy, PartialEq, Eq, Structural, Debug)]
pub enum Action {
    PanUp,
    PanDown,
    PanLeft,
    PanRight,
    ZoomIn,
    ZoomOut,
    Boost,
    Paint,
}

/// The zoom decision for one frame.
#[derive(Clone, Copy, PartialEq, Eq, Structural, Debug)]
pub enum ZoomDir {
    In,
    Out,
    Hold,
}

/// Motion along one axis: -1, 0 or 1, to be scaled by the frame's pan speed.
pub open spec fn axis_dir(neg: bool, pos: bool) -> int {
    if neg && !pos {
        -1
    } else if pos && !neg {
        1
    } else {
        0
    }
}

/// Which logical actions are currently held, one flag per action.
#[derive(Clone, Copy, PartialEq, Eq, Structural, Debug)]
pub struct ActionState {
    pub pan_up: bool,
    pub pan_down: bool,
    pub pan_left: bool,
    pub pan_right: bool,
    pub zoom_in: bool,
    pub zoom_out: bool,
    pub boost: bool,
    pub paint: bool,
}

impl ActionState {
    /// Nothing held.
    pub fn new() -> (r: ActionState)
        ensures
            r == (ActionState {
                pan_up: false,
                pan_down: false,
                pan_left: false,
                pan_right: false,
                zoom_in: false,
                zoom_out: false,
                boost: false,
                paint: false,
            }),
    {
        ActionState {
            pan_up: false,
            pan_down: false,
            pan_left: false,
            pan_right: false,
            zoom_in: false,
            zoom_out: false,
            boost: false,
            paint: false,
        }
    }

    /// The same state with one action's held-flag replaced.
    pub open spec fn spec_with(self, action: Action, held: bool) -> ActionState {
        match action {
            Action::PanUp => ActionState { pan_up: held, ..self },
            Action::PanDown => ActionState { pan_down: held, ..self },
            Action::PanLeft => ActionState { pan_left: held, ..self },
            Action::PanRight => ActionState { pan_right: held, ..self },
            Action::ZoomIn => ActionState { zoom_in: held, ..self },
            Action::ZoomOut => ActionState { zoom_out: held, ..self },
            Action::Boost => ActionState { boost: held, ..self },
            Action::Paint => ActionState { paint: held, ..self },
        }
    }

    /// Records that an action started or stopped being held.
    pub fn set(&mut self, action: Action, held: bool)
        ensures
            *final(self) == old(self).spec_with(action, held),
    {
        match action {
            Action::PanUp => self.pan_up = held,
            Action::PanDown => self.pan_down = held,
            Action::PanLeft => self.pan_left = held,
            Action::PanRight => self.pan_right = held,
            Action::ZoomIn => self.zoom_in = held,
            Action::ZoomOut => self.zoom_out = held,
            Action::Boost => self.boost = held,
            Action::Paint => self.paint = held,
        }
    }

    /// Horizontal pan decision: left and right cancel each other.
    pub fn pan_dir_x(&self) -> (d: i8)
        ensures
            d as int == axis_dir(self.pan_left, self.pan_right),
    {
        if self.pan_left && !self.pan_right {
            -1
        } else if self.pan_right && !self.pan_left {
            1
        } else {
            0
        }
    }

    /// Vertical pan decision: up moves toward smaller world `y`, so up and
    /// down cancel each other and up alone gives -1.
    pub fn pan_dir_y(&self) -> (d: i8)
        ensures
            d as int == axis_dir(self.pan_up, self.pan_down),
    {
        if self.pan_up && !self.pan_down {
            -1
        } else if self.pan_down && !self.pan_up {
            1
        } else {
            0
        }
    }

    /// Zoom decision: zooming in and out at once hold the rectangle still.
    pub fn zoom_dir(&self) -> (z: ZoomDir)
        ensures
            z == (if self.zoom_in && !self.zoom_out {
                ZoomDir::In
            } else if self.zoom_out && !self.zoom_in {
                ZoomDir::Out
            } else {
                ZoomDir::Hold
            }),
    {
        if self.zoom_in && !self.zoom_out {
            ZoomDir::In
        } else if self.zoom_out && !self.zoom_in {
            ZoomDir::Out
        } else {
            ZoomDir::Hold
        }
    }
}

} // verus!
