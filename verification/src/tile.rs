//! The smallest addressable unit of the map: passability and sight flags.

use vstd::prelude::*;

verus! {

/// One cell of the map grid. `blocked` means the cell cannot be entered;
/// `block_sight` means the cell is opaque. The two flags are independent
/// properties of the domain, even though the fixed generator always sets
/// them together.
#[derive(Clone, Copy, PartialEq, Eq, Structural, Debug)]
pub struct Tile {
    pub blocked: bool,
    pub block_sight: bool,
}

impl Tile {
    /// The passable, transparent tile value carved into rooms and tunnels.
    pub open spec fn empty_spec() -> Tile {
        Tile { blocked: false, block_sight: false }
    }

    /// The impassable, opaque tile value that every cell starts as.
    pub open spec fn wall_spec() -> Tile {
        Tile { blocked: true, block_sight: true }
    }

    pub fn empty() -> (t: Tile)
        ensures
            t == Tile::empty_spec(),
    {
        Tile { blocked: false, block_sight: false }
    }

    pub fn wall() -> (t: Tile)
        ensures
            t == Tile::wall_spec(),
    {
        Tile { blocked: true, block_sight: true }
    }
}

} // verus!
