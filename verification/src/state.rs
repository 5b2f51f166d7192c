//! The two finite-state flags that gate the per-frame systems: which
//! screen the app is on, and whether the simulation is running.

use vstd::prelude::*;

verus! {

/// Which screen the app is on.
#[derive(Clone, Copy, PartialEq, Eq, Structural, Debug)]
pub enum AppState {
    MainMenu,
    Game,
    GameOver,
}

impl Default for AppState {
    /// The app starts on the main menu.
    fn default() -> (r: Self)
        ensures
            r == AppState::MainMenu,
    {
        AppState::MainMenu
    }
}

/// Whether the per-frame simulation is running or paused.
#[derive(Clone, Copy, PartialEq, Eq, Structural, Debug)]
pub enum SimulationState {
    Running,
    Paused,
}

impl Default for SimulationState {
    /// The simulation starts paused.
    fn default() -> (r: Self)
        ensures
            r == SimulationState::Paused,
    {
        SimulationState::Paused
    }
}

/// The opposite simulation state.
pub open spec fn toggled(s: SimulationState) -> SimulationState {
    match s {
        SimulationState::Running => SimulationState::Paused,
        SimulationState::Paused => SimulationState::Running,
    }
}

/// The state the app moves to when the game key or the menu key is
/// pressed: the game key wins over the menu key, and a press towards
/// the state the app is already in does nothing.
pub open spec fn app_transition(
    game_key_pressed: bool,
    menu_key_pressed: bool,
    current: AppState,
) -> Option<AppState> {
    if game_key_pressed {
        if current != AppState::Game {
            Some(AppState::Game)
        } else {
            None
        }
    } else if menu_key_pressed {
        if current != AppState::MainMenu {
            Some(AppState::MainMenu)
        } else {
            None
        }
    } else {
        None
    }
}

/// On a pause-key press the simulation state flips; otherwise it is
/// left alone. Returns the state to switch to, if any.
pub fn toggle_simulation(pause_key_pressed: bool, current: SimulationState) -> (next: Option<
    SimulationState,
>)
    ensures
        next == if pause_key_pressed {
            Some(toggled(current))
        } else {
            None::<SimulationState>
        },
{
    if pause_key_pressed {
        match current {
            SimulationState::Running => Some(SimulationState::Paused),
            SimulationState::Paused => Some(SimulationState::Running),
        }
    } else {
        None
    }
}

/// Decides the app-state transition for this frame's key presses.
pub fn transition_to_game_state(
    game_key_pressed: bool,
    menu_key_pressed: bool,
    current: AppState,
) -> (next: Option<AppState>)
    ensures
        next == app_transition(game_key_pressed, menu_key_pressed, current),
{
    if game_key_pressed {
        if current != AppState::Game {
            Some(AppState::Game)
        } else {
            None
        }
    } else if menu_key_pressed {
        if current != AppState::MainMenu {
            Some(AppState::MainMenu)
        } else {
            None
        }
    } else {
        None
    }
}

} // verus!
