//! Simulation speed levels: a fixed ordered list of update rates with a
//! saturating index. Increasing or decreasing the speed is a clamped move
//! along that list; the mapping from a level to its numeric rate belongs to
//! the frame loop around the library.

use vstd::prelude::*;

verus! {

/// The selectable speed levels, ordered from slowest to fastest.
#[derive(Clone, Copy, PartialEq, Eq, Structural, Debug)]
pub enum Speed {
    SuperSlow,
    VerySlow,
    Slow,
    Normal,
    Fast,
    VeryFast,
    SuperFast,
    InsanelyFast,
}

impl Speed {
    /// Position of this level in the ordered list, 0 (slowest) to 7
    /// (fastest).
    pub open spec fn level(self) -> int {
        match self {
            Speed::SuperSlow => 0,
            Speed::VerySlow => 1,
            Speed::Slow => 2,
            Speed::Normal => 3,
            Speed::Fast => 4,
            Speed::VeryFast => 5,
            Speed::SuperFast => 6,
            Speed::InsanelyFast => 7,
        }
    }

    /// The next faster level, saturating at the fastest.
    pub open spec fn spec_increased(self) -> Speed {
        match self {
            Speed::SuperSlow => Speed::VerySlow,
            Speed::VerySlow => Speed::Slow,
            Speed::Slow => Speed::Normal,
            Speed::Normal => Speed::Fast,
            Speed::Fast => Speed::VeryFast,
            Speed::VeryFast => Speed::SuperFast,
            Speed::SuperFast => Speed::InsanelyFast,
            Speed::InsanelyFast => Speed::InsanelyFast,
        }
    }

    /// The next slower level, saturating at the slowest.
    pub open spec fn spec_decreased(self) -> Speed {
        match self {
            Speed::InsanelyFast => Speed::SuperFast,
            Speed::SuperFast => Speed::VeryFast,
            Speed::VeryFast => Speed::Fast,
            Speed::Fast => Speed::Normal,
            Speed::Normal => Speed::Slow,
            Speed::Slow => Speed::VerySlow,
            Speed::VerySlow => Speed::SuperSlow,
            Speed::SuperSlow => Speed::SuperSlow,
        }
    }

    /// Moves one step up the ordered list of rates, saturating at the top.
    pub fn increased(self) -> (r: Speed)
        ensures
            r == self.spec_increased(),
            r.level() == if self.level() < 7 { self.level() + 1 } else { 7int },
    {
        match self {
            Speed::SuperSlow => Speed::VerySlow,
            Speed::VerySlow => Speed::Slow,
            Speed::Slow => Speed::Normal,
            Speed::Normal => Speed::Fast,
            Speed::Fast => Speed::VeryFast,
            Speed::VeryFast => Speed::SuperFast,
            Speed::SuperFast => Speed::InsanelyFast,
            Speed::InsanelyFast => Speed::InsanelyFast,
        }
    }

    /// Moves one step down the ordered list of rates, saturating at the
    /// bottom.
    pub fn decreased(self) -> (r: Speed)
        ensures
            r == self.spec_decreased(),
            r.level() == if self.level() > 0 { self.level() - 1 } else { 0int },
    {
        match self {
            Speed::InsanelyFast => Speed::SuperFast,
            Speed::SuperFast => Speed::VeryFast,
            Speed::VeryFast => Speed::Fast,
            Speed::Fast => Speed::Normal,
            Speed::Normal => Speed::Slow,
            Speed::Slow => Speed::VerySlow,
            Speed::VerySlow => Speed::SuperSlow,
            Speed::SuperSlow => Speed::SuperSlow,
        }
    }
}

} // verus!
