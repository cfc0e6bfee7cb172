//! The frame: what has to be drawn to show a game.

use vstd::prelude::*;
use vstd::arithmetic::div_mod::lemma_fundamental_div_mod_converse;
use crate::game::Game;
use crate::grid::Grid;
use crate::object::{Color, Object};

verus! {

/// One step of drawing a frame.
#[derive(Clone, Copy, Debug, PartialEq, Eq, Structural)]
pub enum DrawCommand {
    /// Put `glyph` in `color` on the cell `(x, y)`, keeping its background.
    Glyph { x: i32, y: i32, glyph: char, color: Color },
    /// Give the cell `(x, y)` the background `color`.
    Background { x: i32, y: i32, color: Color },
}

/// Background of a tile that stops the line of sight.
pub open spec fn dark_wall() -> Color {
    Color { r: 0, g: 0, b: 100 }
}

/// Background of a tile that can be seen through.
pub open spec fn dark_ground() -> Color {
    Color { r: 50, g: 50, b: 15 }
}

/// The background of a cell: it depends on whether the tile stops the line
/// of sight, and on nothing else.
pub open spec fn background_color(block_sight: bool) -> Color {
    if block_sight {
        dark_wall()
    } else {
        dark_ground()
    }
}

/// The command that paints the background of the cell `(x, y)` of `grid`.
pub open spec fn background_command(grid: Grid, x: int, y: int) -> DrawCommand {
    DrawCommand::Background {
        x: x as i32,
        y: y as i32,
        color: background_color(grid.tile(x, y).block_sight),
    }
}

/// The backgrounds of all cells of `grid`, row by row from the top, each
/// row from the left.
pub open spec fn backgrounds(grid: Grid) -> Seq<DrawCommand> {
    Seq::new(
        (grid.width * grid.height) as nat,
        |i: int| background_command(grid, i % grid.width, i / grid.width),
    )
}

/// The frame that shows `objects` on `grid`: first the objects, in their
/// order, then the background of every cell.
pub open spec fn frame_of(grid: Grid, objects: Seq<Object>) -> Seq<DrawCommand> {
    objects.map_values(|object: Object| object.spec_draw()) + backgrounds(grid)
}

/// In the backgrounds of a grid, the cell `(x, y)` comes at the place
/// `y * width + x`.
pub proof fn lemma_background_of_cell(grid: Grid, x: int, y: int)
    requires
        grid.wf(),
        grid.in_bounds(x, y),
    ensures
        0 <= y * grid.width + x < backgrounds(grid).len(),
        backgrounds(grid).len() == grid.width * grid.height,
        backgrounds(grid)[y * grid.width + x] == background_command(grid, x, y),
{
    let width = grid.width;
    let height = grid.height;
    assert(0 <= y * width && y * width + width <= width * height) by (nonlinear_arith)
        requires
            0 <= y < height,
            0 < width,
    ;
    lemma_fundamental_div_mod_converse(y * width + x, width, y, x);
}

/// Picks the background of a cell.
pub fn background(block_sight: bool) -> (color: Color)
    ensures
        color == background_color(block_sight),
{
    if block_sight {
        Color { r: 0, g: 0, b: 100 }
    } else {
        Color { r: 50, g: 50, b: 15 }
    }
}

/// Composes the frame that shows the game: every object, in order, then the
/// background of every cell of the map, row by row.
pub fn render_all(game: &Game) -> (frame: Vec<DrawCommand>)
    ensures
        frame@ == frame_of(game.map@, game.objects@),
{
    let mut frame: Vec<DrawCommand> = Vec::new();
    let mut i: usize = 0;
    while i < game.objects.len()
        invariant
            i <= game.objects@.len(),
            frame@ == game.objects@.take(i as int).map_values(|object: Object| object.spec_draw()),
        decreases game.objects@.len() - i,
    {
        frame.push(game.objects[i].draw());
        i += 1;
    }
    let width = game.map.width();
    let height = game.map.height();
    let ghost grid = game.map@;
    let ghost glyphs = frame@;
    assert(game.objects@.take(i as int) == game.objects@);
    let mut y: i32 = 0;
    while y < height
        invariant
            0 <= y <= height,
            width == grid.width,
            height == grid.height,
            grid == game.map@,
            grid.wf(),
            frame@ == glyphs + backgrounds(grid).take(y * width),
        decreases height - y,
    {
        let mut x: i32 = 0;
        while x < width
            invariant
                0 <= x <= width,
                0 <= y < height,
                width == grid.width,
                height == grid.height,
                grid == game.map@,
                grid.wf(),
                frame@ == glyphs + backgrounds(grid).take(y * width + x),
            decreases width - x,
        {
            let block_sight = match game.map.blocks_sight(x, y) {
                Ok(flag) => flag,
                Err(_) => false,
            };
            frame.push(DrawCommand::Background { x, y, color: background(block_sight) });
            proof {
                lemma_background_of_cell(grid, x as int, y as int);
                let at = y * width + x;
                assert(backgrounds(grid).take(at + 1) == backgrounds(grid).take(at).push(
                    backgrounds(grid)[at],
                ));
            }
            x += 1;
        }
        assert((y + 1) * width == y * width + width) by (nonlinear_arith);
        y += 1;
    }
    proof {
        assert(height * width == width * height) by (nonlinear_arith);
        assert(backgrounds(grid).take(height * width) == backgrounds(grid));
    }
    frame
}

} // verus!
