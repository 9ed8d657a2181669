//! The application's two states and the transitions the start menu offers
//! between them.

use vstd::prelude::*;

verus! {

/// Which screen the application is on: the start menu or the game.
#[derive(Clone, Copy, Debug, PartialEq, Eq, Hash, Structural)]
pub enum AppState {
    StartMenu,
    Game,
}

/// A button of the start menu.
#[derive(Clone, Copy, Debug, PartialEq, Eq, Structural)]
pub enum MenuChoice {
    StartGame,
    RestartGame,
    Settings,
}

/// The state a menu button switches to: the start button enters the game,
/// the restart button returns to the menu, and the settings button changes
/// no state.
pub open spec fn menu_transition_spec(choice: MenuChoice) -> Option<AppState> {
    match choice {
        MenuChoice::StartGame => Some(AppState::Game),
        MenuChoice::RestartGame => Some(AppState::StartMenu),
        MenuChoice::Settings => None,
    }
}

/// The state to switch to when a menu button is clicked, or `None` when the
/// click changes no state.
pub fn start_menu_transition(choice: MenuChoice) -> (next: Option<AppState>)
    ensures
        next == menu_transition_spec(choice),
{
    match choice {
        MenuChoice::StartGame => Some(AppState::Game),
        MenuChoice::RestartGame => Some(AppState::StartMenu),
        MenuChoice::Settings => None,
    }
}

impl Default for AppState {
    /// The application opens on the start menu.
    fn default() -> (s: AppState)
        ensures
            s == AppState::StartMenu,
    {
        AppState::StartMenu
    }
}

} // verus!
