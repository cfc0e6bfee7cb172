//! The tile map: a grid of tiles of fixed size, which answers for its own
//! cells and refuses every other coordinate.

use vstd::prelude::*;
use crate::grid::{lemma_blank_is_open, lemma_with_tile, Grid};
use crate::tile::Tile;

verus! {

/// Width of the game's map, in tiles.
pub const MAP_WIDTH: i32 = 80;

/// Height of the game's map, in tiles.
pub const MAP_HEIGHT: i32 = 45;

/// Why a map operation failed.
#[derive(Clone, Copy, Debug, PartialEq, Eq, Structural)]
pub enum MapError {
    /// The coordinates name no cell of the map.
    OutOfBounds,
}

/// A rectangular grid of tiles whose size is fixed at construction.
pub struct TileMap {
    width: i32,
    height: i32,
    columns: Vec<Vec<Tile>>,
}

impl View for TileMap {
    type V = Grid;

    closed spec fn view(&self) -> Grid {
        Grid {
            width: self.width as int,
            height: self.height as int,
            columns: Seq::new(self.columns@.len(), |x: int| self.columns@[x]@),
        }
    }
}

/// Replaces the tile at `columns[x][y]` and nothing else.
fn put_tile(columns: &mut Vec<Vec<Tile>>, x: usize, y: usize, tile: Tile)
    requires
        x < old(columns)@.len(),
        y < old(columns)@[x as int]@.len(),
    ensures
        final(columns)@.len() == old(columns)@.len(),
        final(columns)@[x as int]@ == old(columns)@[x as int]@.update(y as int, tile),
        forall|i: int|
            0 <= i < old(columns)@.len() && i != x ==> final(columns)@[i] == old(columns)@[i],
    no_unwind
{
    columns[x][y] = tile;
}

impl TileMap {
    #[verifier::type_invariant]
    spec fn inv(&self) -> bool {
        &&& 0 <= self.width
        &&& 0 <= self.height
        &&& self.columns@.len() == self.width
        &&& forall|x: int|
            0 <= x < self.columns@.len() ==> (#[trigger] self.columns@[x])@.len() == self.height
    }

    /// A map of the given size in which every tile is open floor.
    pub fn create(width: i32, height: i32) -> (map: TileMap)
        requires
            0 <= width,
            0 <= height,
        ensures
            map@ == Grid::blank(width as int, height as int),
            map@.wf(),
    {
        let column: Vec<Tile> = vec![Tile::empty(); height as usize];
        let columns: Vec<Vec<Tile>> = vec![column; width as usize];
        let map = TileMap { width, height, columns };
        assert(map@.columns =~~= Grid::blank(width as int, height as int).columns);
        map
    }

    /// Number of columns.
    pub fn width(&self) -> (width: i32)
        ensures
            width == self@.width,
            self@.wf(),
    {
        proof {
            use_type_invariant(self);
        }
        self.width
    }

    /// Number of rows.
    pub fn height(&self) -> (height: i32)
        ensures
            height == self@.height,
            self@.wf(),
    {
        proof {
            use_type_invariant(self);
        }
        self.height
    }

    /// Whether the tile at `(x, y)` stops movement.
    pub fn is_blocked(&self, x: i32, y: i32) -> (result: Result<bool, MapError>)
        ensures
            self@.in_bounds(x as int, y as int) ==> result == Ok::<bool, MapError>(
                self@.tile(x as int, y as int).blocked,
            ),
            !self@.in_bounds(x as int, y as int) ==> result == Err::<bool, MapError>(
                MapError::OutOfBounds,
            ),
    {
        proof {
            use_type_invariant(self);
        }
        if 0 <= x && x < self.width && 0 <= y && y < self.height {
            assert(self@.columns[x as int] == self.columns@[x as int]@);
            Ok(self.columns[x as usize][y as usize].blocked)
        } else {
            Err(MapError::OutOfBounds)
        }
    }

    /// Whether the tile at `(x, y)` stops the line of sight.
    pub fn blocks_sight(&self, x: i32, y: i32) -> (result: Result<bool, MapError>)
        ensures
            self@.in_bounds(x as int, y as int) ==> result == Ok::<bool, MapError>(
                self@.tile(x as int, y as int).block_sight,
            ),
            !self@.in_bounds(x as int, y as int) ==> result == Err::<bool, MapError>(
                MapError::OutOfBounds,
            ),
    {
        proof {
            use_type_invariant(self);
        }
        if 0 <= x && x < self.width && 0 <= y && y < self.height {
            assert(self@.columns[x as int] == self.columns@[x as int]@);
            Ok(self.columns[x as usize][y as usize].block_sight)
        } else {
            Err(MapError::OutOfBounds)
        }
    }

    /// Turns the tile at `(x, y)` into a wall. Outside the map nothing
    /// changes and the call fails.
    pub fn set_wall(&mut self, x: i32, y: i32) -> (result: Result<(), MapError>)
        ensures
            old(self)@.in_bounds(x as int, y as int) ==> result is Ok && final(self)@ == old(
                self,
            )@.with_wall(x as int, y as int),
            !old(self)@.in_bounds(x as int, y as int) ==> result == Err::<(), MapError>(
                MapError::OutOfBounds,
            ) && final(self)@ == old(self)@,
            final(self)@.wf(),
    {
        proof {
            use_type_invariant(&*self);
        }
        if 0 <= x && x < self.width && 0 <= y && y < self.height {
            assert(self@.columns[x as int] == self.columns@[x as int]@);
            put_tile(&mut self.columns, x as usize, y as usize, Tile::wall());
            assert(self@.columns =~~= old(self)@.with_wall(x as int, y as int).columns);
            Ok(())
        } else {
            Err(MapError::OutOfBounds)
        }
    }
}

/// The grid of the game's map: open floor but for two wall tiles, at
/// `(30, 22)` and `(50, 22)`.
pub open spec fn game_grid() -> Grid {
    Grid::blank(MAP_WIDTH as int, MAP_HEIGHT as int).with_wall(30, 22).with_wall(50, 22)
}

/// The game's grid is 80 by 45, and its walls are the tiles at `(30, 22)` and
/// `(50, 22)`: every other tile is open floor.
pub proof fn lemma_game_grid()
    ensures
        game_grid().wf(),
        game_grid().width == 80,
        game_grid().height == 45,
        forall|x: int, y: int| #[trigger]
            game_grid().in_bounds(x, y) ==> game_grid().tile(x, y) == if y == 22 && (x == 30 || x
                == 50) {
                Tile::spec_wall()
            } else {
                Tile::spec_empty()
            },
{
    let blank = Grid::blank(MAP_WIDTH as int, MAP_HEIGHT as int);
    lemma_blank_is_open(MAP_WIDTH as int, MAP_HEIGHT as int);
    lemma_with_tile(blank, 30, 22, Tile::spec_wall());
    lemma_with_tile(blank.with_wall(30, 22), 50, 22, Tile::spec_wall());
}

/// Builds the game's map.
pub fn make_map() -> (map: TileMap)
    ensures
        map@ == game_grid(),
{
    let mut map = TileMap::create(MAP_WIDTH, MAP_HEIGHT);
    let first = map.set_wall(30, 22);
    let second = map.set_wall(50, 22);
    assert(first is Ok && second is Ok);
    map
}

} // verus!
