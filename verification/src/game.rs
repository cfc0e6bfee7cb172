//! The game: one map and the objects on it.

use vstd::prelude::*;
use crate::grid::Grid;
use crate::map::TileMap;
use crate::object::Object;

verus! {

/// Place of the player among the objects of a game.
pub const PLAYER: usize = 0;

/// A game in progress. The objects are kept in the order in which they
/// were added; the first one is the player.
pub struct Game {
    pub map: TileMap,
    pub objects: Vec<Object>,
}

/// The objects of a game after the player has tried to step by `(dx, dy)`:
/// only the player can have changed. Without a player nothing changes.
pub open spec fn after_player_step(objects: Seq<Object>, grid: Grid, dx: int, dy: int) -> Seq<
    Object,
> {
    if objects.len() > PLAYER {
        objects.update(PLAYER as int, objects[PLAYER as int].moved_by(dx, dy, grid))
    } else {
        objects
    }
}

impl Game {
    /// A game on `map` with `objects`, the player first.
    pub fn new(map: TileMap, objects: Vec<Object>) -> (game: Game)
        ensures
            game.map == map,
            game.objects == objects,
    {
        Game { map, objects }
    }

    /// Lets the player try to step by `(dx, dy)` and tells whether the step
    /// was taken. The map and the other objects stay as they are.
    pub fn move_player(&mut self, dx: i32, dy: i32) -> (moved: bool)
        ensures
            final(self).map == old(self).map,
            final(self).objects@ == after_player_step(
                old(self).objects@,
                old(self).map@,
                dx as int,
                dy as int,
            ),
            moved == (old(self).objects@.len() > PLAYER && old(self).objects@[PLAYER as int].can_move(
                dx as int,
                dy as int,
                old(self).map@,
            )),
    {
        if self.objects.len() <= PLAYER {
            return false;
        }
        let mut player = self.objects[PLAYER];
        let moved = player.move_by(dx, dy, &self.map);
        self.objects.set(PLAYER, player);
        moved
    }
}

} // verus!
