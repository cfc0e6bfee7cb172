//! Keys and what they ask of the game.

use vstd::prelude::*;

verus! {

/// The keys the game tells apart.
#[derive(Clone, Copy, Debug, PartialEq, Eq, Structural)]
pub enum KeyCode {
    Enter,
    Escape,
    Up,
    Down,
    Left,
    Right,
    /// Any other key.
    Other,
}

/// One key press: the key, and whether Alt was held with it.
#[derive(Clone, Copy, Debug, PartialEq, Eq, Structural)]
pub struct Key {
    pub code: KeyCode,
    pub alt: bool,
}

/// What one input event asks of the game.
#[derive(Clone, Copy, Debug, PartialEq, Eq, Structural)]
pub enum Input {
    /// Leave the game.
    Quit,
    /// Switch between window and full screen.
    ToggleFullscreen,
    MoveUp,
    MoveDown,
    MoveLeft,
    MoveRight,
    /// Nothing: the event is ignored.
    Ignored,
}

impl Key {
    /// What the key press asks for. Alt+Enter toggles full screen, Escape
    /// quits, the arrows move the player; every other press is ignored,
    /// Enter without Alt too.
    pub open spec fn spec_input(self) -> Input {
        match self.code {
            KeyCode::Enter => if self.alt {
                Input::ToggleFullscreen
            } else {
                Input::Ignored
            },
            KeyCode::Escape => Input::Quit,
            KeyCode::Up => Input::MoveUp,
            KeyCode::Down => Input::MoveDown,
            KeyCode::Left => Input::MoveLeft,
            KeyCode::Right => Input::MoveRight,
            KeyCode::Other => Input::Ignored,
        }
    }

    /// What the key press asks for.
    #[verifier::when_used_as_spec(spec_input)]
    pub fn input(self) -> (input: Input)
        ensures
            input == self.spec_input(),
    {
        match self.code {
            KeyCode::Enter => if self.alt {
                Input::ToggleFullscreen
            } else {
                Input::Ignored
            },
            KeyCode::Escape => Input::Quit,
            KeyCode::Up => Input::MoveUp,
            KeyCode::Down => Input::MoveDown,
            KeyCode::Left => Input::MoveLeft,
            KeyCode::Right => Input::MoveRight,
            KeyCode::Other => Input::Ignored,
        }
    }
}

impl Input {
    /// The step that a move asks for, one cell in its direction with `y`
    /// growing downwards; `None` for an input that is no move.
    pub open spec fn spec_step(self) -> Option<(i32, i32)> {
        match self {
            Input::MoveUp => Some((0i32, -1i32)),
            Input::MoveDown => Some((0i32, 1i32)),
            Input::MoveLeft => Some((-1i32, 0i32)),
            Input::MoveRight => Some((1i32, 0i32)),
            _ => None,
        }
    }

    /// The step that a move asks for.
    #[verifier::when_used_as_spec(spec_step)]
    pub fn step(self) -> (step: Option<(i32, i32)>)
        ensures
            step == self.spec_step(),
    {
        match self {
            Input::MoveUp => Some((0, -1)),
            Input::MoveDown => Some((0, 1)),
            Input::MoveLeft => Some((-1, 0)),
            Input::MoveRight => Some((1, 0)),
            _ => None,
        }
    }
}

} // verus!
