//! Keyboard handling that does not depend on a toolkit: which keys were
//! pressed becomes one input action, and an input action becomes an
//! [`Action`] for the launcher state.

use vstd::prelude::*;

use crate::launcher_state::Action;

verus! {

/// The launcher's reaction to the keys pressed in one frame.
#[derive(Debug, Clone, Copy, PartialEq, Eq, Structural)]
pub enum InputAction {
    Close,
    LaunchSelected,
    MoveDown,
    MoveUp,
    Nothing,
}

impl InputAction {
    /// Escape wins over Enter, Enter over Down, Down over Up.
    pub fn from_keys(escape: bool, enter: bool, down: bool, up: bool) -> (a: InputAction)
        ensures
            a == if escape {
                InputAction::Close
            } else if enter {
                InputAction::LaunchSelected
            } else if down {
                InputAction::MoveDown
            } else if up {
                InputAction::MoveUp
            } else {
                InputAction::Nothing
            },
    {
        if escape {
            InputAction::Close
        } else if enter {
            InputAction::LaunchSelected
        } else if down {
            InputAction::MoveDown
        } else if up {
            InputAction::MoveUp
        } else {
            InputAction::Nothing
        }
    }

    /// The launcher action for this input, if any: closing exits, the other
    /// keys launch or move the selection.
    pub fn action<P>(self) -> (a: Option<Action<P>>)
        ensures
            a == match self {
                InputAction::Close => Some(Action::<P>::Exit),
                InputAction::LaunchSelected => Some(Action::<P>::LaunchSelected),
                InputAction::MoveDown => Some(Action::<P>::MoveDown),
                InputAction::MoveUp => Some(Action::<P>::MoveUp),
                InputAction::Nothing => None,
            },
    {
        match self {
            InputAction::Close => Some(Action::Exit),
            InputAction::LaunchSelected => Some(Action::LaunchSelected),
            InputAction::MoveDown => Some(Action::MoveDown),
            InputAction::MoveUp => Some(Action::MoveUp),
            InputAction::Nothing => None,
        }
    }
}

} // verus!
