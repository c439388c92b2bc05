use vstd::prelude::*;

verus! {

/// One cell of the dungeon map: whether it blocks movement and whether it
/// blocks sight. Both flags track the same "solid" concept, so the two
/// canonical constructors always set them together.
#[derive(Clone, Copy, Debug, PartialEq, Eq, Structural)]
pub struct Tile {
    pub blocked: bool,
    pub block_sight: bool,
}

/// The passable ground tile: blocks neither movement nor sight.
pub open spec fn empty_tile() -> Tile {
    Tile { blocked: false, block_sight: false }
}

/// The solid wall tile: blocks both movement and sight.
pub open spec fn wall_tile() -> Tile {
    Tile { blocked: true, block_sight: true }
}

impl Tile {
    /// The passable tile; its two flags are both false.
    pub fn empty() -> (t: Tile)
        ensures
            t == empty_tile(),
            !t.blocked && !t.block_sight,
    {
        Tile { blocked: false, block_sight: false }
    }

    /// The wall tile; its two flags are both true.
    pub fn wall() -> (t: Tile)
        ensures
            t == wall_tile(),
            t.blocked && t.block_sight,
    {
        Tile { blocked: true, block_sight: true }
    }
}

/// The two canonical tiles never mix the flags: each blocks movement
/// exactly when it blocks sight.
pub proof fn lemma_canonical_tiles_pair_flags()
    ensures
        empty_tile().blocked == empty_tile().block_sight,
        wall_tile().blocked == wall_tile().block_sight,
{
}

} // verus!
