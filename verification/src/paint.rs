//! Pointer-paint editing of the grid while the simulation is paused.
//!
//! During one pointer drag, every tile the pointer crosses is flipped once:
//! a drag that passes twice over the same cell must not flip it back. The
//! set of tiles already flipped in the current drag is tracked here and
//! emptied when the pointer button is released.

use vstd::prelude::*;
use crate::grid::{toggled, GameGrid};
use crate::positions::GridPosition;

verus! {

/// The tiles already flipped during the current pointer drag.
pub struct PaintedTiles {
    tiles: Vec<GridPosition>,
}

impl View for PaintedTiles {
    type V = Set<GridPosition>;

    closed spec fn view(&self) -> Set<GridPosition> {
        self.tiles@.to_set()
    }
}

impl PaintedTiles {
    /// No tile flipped yet.
    pub fn new() -> (r: PaintedTiles)
        ensures
            r@ == Set::<GridPosition>::empty(),
    {
        let r = PaintedTiles { tiles: Vec::new() };
        proof {
            assert(r@ =~= Set::<GridPosition>::empty());
        }
        r
    }

    /// Whether this drag has already flipped the given tile.
    pub fn contains(&self, tile: GridPosition) -> (r: bool)
        ensures
            r == self@.contains(tile),
    {
        let n: usize = self.tiles.len();
        let mut i: usize = 0;
        while i < n
            invariant
                n == self.tiles@.len(),
                i <= n,
                forall|j: int| 0 <= j < i ==> self.tiles@[j] != tile,
            decreases n - i,
        {
            if self.tiles[i] == tile {
                proof {
                    assert(self.tiles@.contains(tile));
                }
                return true;
            }
            i += 1;
        }
        proof {
            assert(!self.tiles@.contains(tile));
        }
        false
    }

    /// Records that the tile was flipped in this drag; returns whether it
    /// was fresh (not recorded before).
    pub fn mark(&mut self, tile: GridPosition) -> (fresh: bool)
        ensures
            fresh == !old(self)@.contains(tile),
            final(self)@ == old(self)@.insert(tile),
    {
        if self.contains(tile) {
            proof {
                assert(self@ =~= old(self)@.insert(tile));
            }
            false
        } else {
            self.tiles.push(tile);
            proof {
                broadcast use vstd::seq_lib::lemma_seq_contains_after_push;

                assert(old(self).tiles@.push(tile).to_set() =~= old(self)@.insert(tile));
            }
            true
        }
    }

    /// Forgets the whole drag; called when the pointer button is released.
    pub fn clear(&mut self)
        ensures
            final(self)@ == Set::<GridPosition>::empty(),
    {
        self.tiles = Vec::new();
        proof {
            assert(self@ =~= Set::<GridPosition>::empty());
        }
    }
}

/// One pointer-paint event at a tile, while the simulation is paused and the
/// pointer button is held: flips the cell unless this drag already flipped
/// it, and records it. A tile outside the grid is a reported failure with no
/// side effect.
pub fn paint_at(
    grid: &mut GameGrid,
    painted: &mut PaintedTiles,
    tile: GridPosition,
) -> (r: Result<bool, ()>)
    requires
        old(grid).wf(),
    ensures
        final(grid).wf(),
        final(grid).spec_rows() == old(grid).spec_rows(),
        final(grid).spec_cols() == old(grid).spec_cols(),
        r is Err <==> !old(painted)@.contains(tile) && !(tile.1 < old(grid).spec_rows()
            && tile.0 < old(grid).spec_cols()),
        old(painted)@.contains(tile) ==> r == Ok::<bool, ()>(false)
            && final(grid)@ == old(grid)@
            && final(painted)@ == old(painted)@,
        !old(painted)@.contains(tile) && tile.1 < old(grid).spec_rows()
            && tile.0 < old(grid).spec_cols() ==> r == Ok::<bool, ()>(true)
            && final(grid)@ == toggled(old(grid)@, tile.1 as int, tile.0 as int)
            && final(painted)@ == old(painted)@.insert(tile),
        r is Err ==> final(grid)@ == old(grid)@ && final(painted)@ == old(painted)@,
{
    if painted.contains(tile) {
        return Ok(false);
    }
    match grid.switch_state_at(tile.1, tile.0) {
        Ok(_) => {
            painted.mark(tile);
            Ok(true)
        },
        Err(_) => Err(()),
    }
}

} // verus!
