use vstd::prelude::*;

use crate::question::{Config, ConfigError};

verus! {

/// The phase of the application.
#[derive(Debug, Clone, Copy, PartialEq, Eq, Structural, Hash)]
pub enum AppState {
    /// Waiting for the question bank and the assets.
    Loading,
    MainMenu,
    InGame,
}

impl Default for AppState {
    fn default() -> (r: AppState)
        ensures
            r == AppState::Loading,
    {
        AppState::Loading
    }
}

/// The phase of the round; it is `Idle` whenever the application is not in
/// game.
#[derive(Debug, Clone, Copy, PartialEq, Eq, Structural, Hash)]
pub enum GameState {
    Idle,
    Playing,
    Paused,
    GameOver,
}

impl Default for GameState {
    fn default() -> (r: GameState)
        ensures
            r == GameState::Idle,
    {
        GameState::Idle
    }
}

/// What the player can ask for from a menu or a key.
#[derive(Debug, Clone, Copy, PartialEq, Eq, Structural, Hash)]
pub enum MenuAction {
    /// Start a round from the main menu.
    Start,
    /// Pause the round in play.
    Pause,
    /// Go back to the paused round.
    Resume,
    /// Leave the paused round for the main menu.
    ReturnToMenu,
    /// Play again after the round is over.
    Restart,
    /// Leave the application from the main menu.
    Quit,
}

/// How loading went, as seen at one poll.
#[derive(Debug)]
pub enum AssetSignal {
    /// Still loading.
    Pending,
    /// Everything is loaded, with this question bank.
    Ready(Config),
    /// Some asset could not be loaded.
    Failed,
}

/// Why loading can never finish.
#[derive(Debug, Clone, Copy, PartialEq, Eq, Structural)]
pub enum LoadFailure {
    /// Some asset could not be loaded.
    Assets,
    /// The question bank cannot be used.
    Config(ConfigError),
}

} // verus!
