//! The game loop as a state machine: it is handed one input event at a
//! time and says what to show next.

use vstd::prelude::*;
use crate::game::{after_player_step, Game};
use crate::grid::Grid;
use crate::input::{Input, Key};
use crate::object::Object;
use crate::render::{frame_of, render_all, DrawCommand};

verus! {

/// Where the loop stands.
#[derive(Clone, Copy, Debug, PartialEq, Eq, Structural)]
pub enum LoopState {
    /// Frames are shown and input is awaited.
    Running,
    /// The loop has been asked to end. Nothing leads back from here.
    Exiting,
}

/// A game together with the state of the loop that runs it.
pub struct GameLoop {
    pub game: Game,
    pub state: LoopState,
    pub fullscreen: bool,
}

/// The state of the loop after `input`: quitting ends it, and once ended
/// it stays so.
pub open spec fn state_after(state: LoopState, input: Input) -> LoopState {
    if state == LoopState::Running && input != Input::Quit {
        LoopState::Running
    } else {
        LoopState::Exiting
    }
}

/// The display setting after `input`: a running loop flips it on a toggle
/// and on nothing else.
pub open spec fn fullscreen_after(fullscreen: bool, state: LoopState, input: Input) -> bool {
    if state == LoopState::Running && input == Input::ToggleFullscreen {
        !fullscreen
    } else {
        fullscreen
    }
}

/// The objects after `input`: a running loop lets the player try the step
/// that a move asks for, and leaves them alone otherwise.
pub open spec fn objects_after(
    objects: Seq<Object>,
    grid: Grid,
    state: LoopState,
    input: Input,
) -> Seq<Object> {
    match input.spec_step() {
        Some((dx, dy)) if state == LoopState::Running => after_player_step(
            objects,
            grid,
            dx as int,
            dy as int,
        ),
        _ => objects,
    }
}

impl GameLoop {
    /// A loop that is about to run `game`, with the given display setting.
    pub fn new(game: Game, fullscreen: bool) -> (game_loop: GameLoop)
        ensures
            game_loop.game == game,
            game_loop.state == LoopState::Running,
            game_loop.fullscreen == fullscreen,
    {
        GameLoop { game, state: LoopState::Running, fullscreen }
    }

    /// Whether the loop goes on.
    pub fn is_running(&self) -> (running: bool)
        ensures
            running == (self.state == LoopState::Running),
    {
        match self.state {
            LoopState::Running => true,
            LoopState::Exiting => false,
        }
    }

    /// The frame to show next: the game as it stands while the loop runs,
    /// none once it has ended.
    pub fn next_frame(&self) -> (frame: Option<Vec<DrawCommand>>)
        ensures
            self.state == LoopState::Running ==> frame is Some && frame->0@ == frame_of(
                self.game.map@,
                self.game.objects@,
            ),
            self.state == LoopState::Exiting ==> frame is None,
    {
        match self.state {
            LoopState::Running => Some(render_all(&self.game)),
            LoopState::Exiting => None,
        }
    }

    /// Applies one input event. Quitting ends the loop, a toggle flips the
    /// display setting, a move lets the player try one step, anything else
    /// changes nothing; a loop that has ended ignores every input. The map
    /// is never touched. Returns whether the loop has ended.
    pub fn dispatch(&mut self, input: Input) -> (exit: bool)
        ensures
            final(self).game.map == old(self).game.map,
            final(self).game.objects@ == objects_after(
                old(self).game.objects@,
                old(self).game.map@,
                old(self).state,
                input,
            ),
            final(self).state == state_after(old(self).state, input),
            final(self).fullscreen == fullscreen_after(old(self).fullscreen, old(self).state, input),
            exit == (final(self).state == LoopState::Exiting),
    {
        if !self.is_running() {
            return true;
        }
        match input {
            Input::Quit => {
                self.state = LoopState::Exiting;
                true
            },
            Input::ToggleFullscreen => {
                self.fullscreen = !self.fullscreen;
                false
            },
            _ => {
                match input.step() {
                    Some((dx, dy)) => {
                        self.game.move_player(dx, dy);
                    },
                    None => {},
                }
                false
            },
        }
    }

    /// Applies one key press, and returns whether the loop has ended.
    pub fn handle_keys(&mut self, key: Key) -> (exit: bool)
        ensures
            final(self).game.map == old(self).game.map,
            final(self).game.objects@ == objects_after(
                old(self).game.objects@,
                old(self).game.map@,
                old(self).state,
                key.spec_input(),
            ),
            final(self).state == state_after(old(self).state, key.spec_input()),
            final(self).fullscreen == fullscreen_after(
                old(self).fullscreen,
                old(self).state,
                key.spec_input(),
            ),
            exit == (final(self).state == LoopState::Exiting),
    {
        self.dispatch(key.input())
    }
}

/// Quitting ends a running loop, nothing else does, and a loop that has
/// ended stays so whatever the input.
pub proof fn lemma_exiting_is_terminal(state: LoopState, input: Input)
    ensures
        state_after(LoopState::Running, Input::Quit) == LoopState::Exiting,
        input != Input::Quit ==> state_after(LoopState::Running, input) == LoopState::Running,
        state_after(LoopState::Exiting, input) == LoopState::Exiting,
        state_after(state_after(state, Input::Quit), input) == LoopState::Exiting,
{
}

/// Only a move changes the objects, and only the display toggle changes
/// the display setting.
pub proof fn lemma_input_is_separate(
    objects: Seq<Object>,
    grid: Grid,
    fullscreen: bool,
    state: LoopState,
    input: Input,
)
    ensures
        input.spec_step() is None ==> objects_after(objects, grid, state, input) == objects,
        input != Input::ToggleFullscreen ==> fullscreen_after(fullscreen, state, input)
            == fullscreen,
        objects_after(objects, grid, state, input).len() == objects.len(),
        forall|i: int|
            1 <= i < objects.len() ==> objects_after(objects, grid, state, input)[i] == objects[i],
{
}

} // verus!
