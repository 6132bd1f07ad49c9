//! The states that the game runs through.

use vstd::prelude::*;

verus! {

/// The state of the game as a whole.
#[derive(Clone, Copy, Debug, PartialEq, Eq, Structural, Hash)]
pub enum GameState {
    AssetLoading,
    GameLoading,
    Running,
    Menu,
}

/// The state that follows once everything is loaded: the game runs.
pub fn run_game() -> (next: GameState)
    ensures
        next == GameState::Running,
{
    GameState::Running
}

/// Opens or closes the inventory: flips its visibility and returns the state
/// that goes with it, the menu while the inventory is shown and the running
/// game while it is hidden.
pub fn toggle_inventory(visible: &mut bool) -> (next: GameState)
    ensures
        *final(visible) == !*old(visible),
        next == (if *final(visible) {
            GameState::Menu
        } else {
            GameState::Running
        }),
{
    *visible = !*visible;
    if *visible {
        GameState::Menu
    } else {
        GameState::Running
    }
}

} // verus!
