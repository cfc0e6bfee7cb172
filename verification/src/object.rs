//! Objects: whatever is shown on the map as a coloured character and may
//! walk on it.

use vstd::prelude::*;
use crate::grid::Grid;
use crate::map::TileMap;
use crate::render::DrawCommand;

verus! {

/// A colour, by its red, green and blue parts.
#[derive(Clone, Copy, Debug, PartialEq, Eq, Structural)]
pub struct Color {
    pub r: u8,
    pub g: u8,
    pub b: u8,
}

/// Something on the map: the player, a monster, an item.
#[derive(Clone, Copy, Debug, PartialEq, Eq, Structural)]
pub struct Object {
    pub x: i32,
    pub y: i32,
    pub glyph: char,
    pub color: Color,
}

impl Object {
    /// Whether a step by `(dx, dy)` is allowed on `grid`: the cell it leads
    /// to exists and is not blocked.
    pub open spec fn can_move(self, dx: int, dy: int, grid: Grid) -> bool {
        grid.passable(self.x + dx, self.y + dy)
    }

    /// The object after an attempt to step by `(dx, dy)` on `grid`: moved
    /// if the step is allowed, else as it was.
    pub open spec fn moved_by(self, dx: int, dy: int, grid: Grid) -> Object {
        if self.can_move(dx, dy, grid) {
            Object { x: (self.x + dx) as i32, y: (self.y + dy) as i32, ..self }
        } else {
            self
        }
    }

    /// The object after `n` attempts to step by `(dx, dy)` on `grid`.
    pub open spec fn moved_by_repeatedly(self, dx: int, dy: int, grid: Grid, n: nat) -> Object
        decreases n,
    {
        if n == 0 {
            self
        } else {
            self.moved_by(dx, dy, grid).moved_by_repeatedly(dx, dy, grid, (n - 1) as nat)
        }
    }

    /// Whether the object stands on a cell of `grid`.
    pub open spec fn on_grid(self, grid: Grid) -> bool {
        grid.in_bounds(self.x as int, self.y as int)
    }

    /// What drawing the object amounts to: its glyph, in its colour, at its
    /// position.
    pub open spec fn spec_draw(self) -> DrawCommand {
        DrawCommand::Glyph { x: self.x, y: self.y, glyph: self.glyph, color: self.color }
    }

    /// An object at `(x, y)` shown as `glyph` in `color`.
    pub fn new(x: i32, y: i32, glyph: char, color: Color) -> (object: Object)
        ensures
            object == (Object { x, y, glyph, color }),
    {
        Object { x, y, glyph, color }
    }

    /// Tries to step by `(dx, dy)`. The step is taken, and `true` returned,
    /// exactly when the target cell is on the map and not blocked; else the
    /// object stays as it was.
    pub fn move_by(&mut self, dx: i32, dy: i32, map: &TileMap) -> (moved: bool)
        ensures
            moved == old(self).can_move(dx as int, dy as int, map@),
            *final(self) == old(self).moved_by(dx as int, dy as int, map@),
            moved ==> final(self).x == old(self).x + dx && final(self).y == old(self).y + dy,
            old(self).on_grid(map@) ==> final(self).on_grid(map@),
    {
        let target_x: i64 = self.x as i64 + dx as i64;
        let target_y: i64 = self.y as i64 + dy as i64;
        if target_x < 0 || target_x >= map.width() as i64 || target_y < 0 || target_y
            >= map.height() as i64 {
            return false;
        }
        match map.is_blocked(target_x as i32, target_y as i32) {
            Ok(false) => {
                self.x = target_x as i32;
                self.y = target_y as i32;
                true
            },
            _ => false,
        }
    }

    /// The command that draws the object.
    pub fn draw(&self) -> (command: DrawCommand)
        ensures
            command == self.spec_draw(),
    {
        DrawCommand::Glyph { x: self.x, y: self.y, glyph: self.glyph, color: self.color }
    }
}

/// A step that is accepted puts the object exactly on the cell it aimed
/// at, and that cell is on the grid and not blocked.
pub proof fn lemma_accepted_move(object: Object, dx: int, dy: int, grid: Grid)
    requires
        object.can_move(dx, dy, grid),
        grid.wf(),
    ensures
        object.moved_by(dx, dy, grid).x == object.x + dx,
        object.moved_by(dx, dy, grid).y == object.y + dy,
        object.moved_by(dx, dy, grid).on_grid(grid),
        grid.passable(
            object.moved_by(dx, dy, grid).x as int,
            object.moved_by(dx, dy, grid).y as int,
        ),
{
}

/// A step that is rejected stays rejected however often it is tried, and
/// the object never changes.
pub proof fn lemma_rejected_move_is_idempotent(
    object: Object,
    dx: int,
    dy: int,
    grid: Grid,
    n: nat,
)
    requires
        !object.can_move(dx, dy, grid),
    ensures
        object.moved_by_repeatedly(dx, dy, grid, n) == object,
        !object.moved_by_repeatedly(dx, dy, grid, n).can_move(dx, dy, grid),
    decreases n,
{
    if n > 0 {
        lemma_rejected_move_is_idempotent(object, dx, dy, grid, (n - 1) as nat);
    }
}

/// An object that stands on the grid still stands on it after any attempt
/// to move, accepted or not.
pub proof fn lemma_move_stays_on_grid(object: Object, dx: int, dy: int, grid: Grid)
    requires
        object.on_grid(grid),
        grid.wf(),
    ensures
        object.moved_by(dx, dy, grid).on_grid(grid),
{
}

} // verus!
