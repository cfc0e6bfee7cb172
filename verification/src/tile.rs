//! Tiles, the cells of the map grid.

use vstd::prelude::*;

verus! {

/// One cell of the map. `blocked` stops movement, `block_sight` stops the
/// line of sight; the two flags are independent.
#[derive(Clone, Copy, Debug, PartialEq, Eq, Structural)]
pub struct Tile {
    pub blocked: bool,
    pub block_sight: bool,
}

impl Tile {
    /// The open floor tile.
    pub open spec fn spec_empty() -> Tile {
        Tile { blocked: false, block_sight: false }
    }

    /// The wall tile: neither walked nor seen through.
    pub open spec fn spec_wall() -> Tile {
        Tile { blocked: true, block_sight: true }
    }

    /// A tile that can be walked on and seen through.
    #[verifier::when_used_as_spec(spec_empty)]
    pub fn empty() -> (tile: Tile)
        ensures
            tile == Tile::spec_empty(),
    {
        Tile { blocked: false, block_sight: false }
    }

    /// A tile that can be neither walked on nor seen through.
    #[verifier::when_used_as_spec(spec_wall)]
    pub fn wall() -> (tile: Tile)
        ensures
            tile == Tile::spec_wall(),
    {
        Tile { blocked: true, block_sight: true }
    }
}

} // verus!
