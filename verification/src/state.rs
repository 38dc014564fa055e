//! The coarse session state the host loop runs the gameplay systems under.

use vstd::prelude::*;

verus! {

/// Which screen the session is on; gameplay systems run only in `Gameplay`.
#[derive(Clone, Copy, Debug, PartialEq, Eq, Hash, Structural)]
pub enum GameState {
    MainMenu,
    Gameplay,
}

impl Default for GameState {
    /// A session starts on the main menu.
    fn default() -> (s: Self)
        ensures
            s == GameState::MainMenu,
    {
        GameState::MainMenu
    }
}

} // verus!
