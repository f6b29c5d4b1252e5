use vstd::prelude::*;

verus! {

/// One cell of the grid: whether it can be entered and whether it blocks sight.
#[derive(Clone, Copy, Debug, PartialEq, Eq, Structural)]
pub struct Tile {
    pub blocked: bool,
    pub blocked_sight: bool,
}

/// An open tile, as carved by the generator.
pub open spec fn empty_tile() -> Tile {
    Tile { blocked: false, blocked_sight: false }
}

/// A never-carved tile.
pub open spec fn wall_tile() -> Tile {
    Tile { blocked: true, blocked_sight: true }
}

impl Tile {
    pub fn empty() -> (t: Self)
        ensures
            t == empty_tile(),
    {
        Tile { blocked: false, blocked_sight: false }
    }

    pub fn wall() -> (t: Self)
        ensures
            t == wall_tile(),
    {
        Tile { blocked: true, blocked_sight: true }
    }
}

} // verus!
