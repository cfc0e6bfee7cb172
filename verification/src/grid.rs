//! The mathematical model of a tile map: a rectangle of tiles addressed by
//! integer coordinates, column first.

use vstd::prelude::*;
use crate::tile::Tile;

verus! {

/// A `width` by `height` rectangle of tiles. `columns[x][y]` is the tile at
/// `(x, y)`.
#[verifier::ext_equal]
pub struct Grid {
    pub width: int,
    pub height: int,
    pub columns: Seq<Seq<Tile>>,
}

impl Grid {
    /// Every column is present and has the full height, and the last cell
    /// can still be named by `i32` coordinates.
    pub open spec fn wf(self) -> bool {
        &&& 0 <= self.width <= i32::MAX
        &&& 0 <= self.height <= i32::MAX
        &&& self.columns.len() == self.width
        &&& forall|x: int| 0 <= x < self.width ==> (#[trigger] self.columns[x]).len() == self.height
    }

    /// The grid of the given size in which every tile is open floor.
    pub open spec fn blank(width: int, height: int) -> Grid {
        Grid {
            width,
            height,
            columns: Seq::new(
                width as nat,
                |x: int| Seq::new(height as nat, |y: int| Tile::spec_empty()),
            ),
        }
    }

    /// Whether `(x, y)` names a cell of the grid.
    pub open spec fn in_bounds(self, x: int, y: int) -> bool {
        0 <= x < self.width && 0 <= y < self.height
    }

    /// The tile at `(x, y)`; meaningful only in bounds.
    pub open spec fn tile(self, x: int, y: int) -> Tile
        recommends
            self.in_bounds(x, y),
    {
        self.columns[x][y]
    }

    /// The grid with the tile at `(x, y)` replaced.
    pub open spec fn with_tile(self, x: int, y: int, tile: Tile) -> Grid
        recommends
            self.in_bounds(x, y),
    {
        Grid { columns: self.columns.update(x, self.columns[x].update(y, tile)), ..self }
    }

    /// The grid with a wall at `(x, y)`.
    pub open spec fn with_wall(self, x: int, y: int) -> Grid
        recommends
            self.in_bounds(x, y),
    {
        self.with_tile(x, y, Tile::spec_wall())
    }

    /// Whether an object may stand on `(x, y)`: the cell exists and is not
    /// blocked.
    pub open spec fn passable(self, x: int, y: int) -> bool {
        self.in_bounds(x, y) && !self.tile(x, y).blocked
    }
}

/// A blank grid is well formed, has the size it was asked for, and every
/// cell of it is open floor.
pub proof fn lemma_blank_is_open(width: int, height: int)
    requires
        0 <= width <= i32::MAX,
        0 <= height <= i32::MAX,
    ensures
        Grid::blank(width, height).wf(),
        forall|x: int, y: int| #[trigger]
            Grid::blank(width, height).in_bounds(x, y) ==> Grid::blank(width, height).tile(x, y)
                == Tile::spec_empty() && Grid::blank(width, height).passable(x, y),
{
}

/// Replacing a tile changes that tile and nothing else: the size of the
/// grid stays, and so does every other cell.
pub proof fn lemma_with_tile(grid: Grid, x: int, y: int, tile: Tile)
    requires
        grid.wf(),
        grid.in_bounds(x, y),
    ensures
        grid.with_tile(x, y, tile).wf(),
        grid.with_tile(x, y, tile).width == grid.width,
        grid.with_tile(x, y, tile).height == grid.height,
        grid.with_tile(x, y, tile).tile(x, y) == tile,
        forall|i: int, j: int|
            grid.in_bounds(i, j) && (i != x || j != y) ==> #[trigger] grid.with_tile(
                x,
                y,
                tile,
            ).tile(i, j) == grid.tile(i, j),
{
    let after = grid.with_tile(x, y, tile);
    assert forall|i: int| 0 <= i < after.width implies (#[trigger] after.columns[i]).len()
        == after.height by {
        assert(grid.columns[i].len() == grid.height);
    }
}

/// A wall set on a blank grid is found again where it was set, and every
/// other cell is still not blocked.
pub proof fn lemma_single_wall(width: int, height: int, wx: int, wy: int)
    requires
        0 <= width <= i32::MAX,
        0 <= height <= i32::MAX,
        Grid::blank(width, height).in_bounds(wx, wy),
    ensures
        forall|x: int, y: int| #[trigger]
            Grid::blank(width, height).in_bounds(x, y) ==> Grid::blank(width, height).with_wall(
                wx,
                wy,
            ).tile(x, y).blocked == (x == wx && y == wy),
{
    let blank = Grid::blank(width, height);
    lemma_blank_is_open(width, height);
    lemma_with_tile(blank, wx, wy, Tile::spec_wall());
}

} // verus!
