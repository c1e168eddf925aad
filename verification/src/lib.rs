//! Rules of a first-person ball-hopping arcade game.
//!
//! The player keeps a bouncing ball in the air by shooting it. This crate holds
//! the rules of that game as plain state and plain values: the score tracker,
//! the weapon's rate of fire, the hit rule, the end of a round, the three
//! screens and the entities each screen owns. An engine drives it: it feeds in
//! frame times, button presses and overlap results, and carries out what the
//! rules hand back.
//!
//! Time is counted in whole nanoseconds and impulses in whole engine units, so
//! that every rule is stated over integers.

use vstd::prelude::*;

pub mod button;
pub mod chance;
pub mod clock;
pub mod game;
pub mod gameover;
pub mod ingame;
pub mod mainmenu;
pub mod sprites;
pub mod stage;
pub mod text;

verus! {

/// Width of the playing field in world units.
pub const SCREEN_WIDTH: u32 = 1280;

/// Height of the playing field in world units.
pub const SCREEN_HEIGHT: u32 = 720;

/// The screen that is showing. Exactly one is active at a time.
#[derive(Debug, Clone, Copy, PartialEq, Eq, Hash, Structural)]
pub enum AppState {
    MainMenu,
    InGame,
    GameOver,
}

impl Default for AppState {
    /// The game opens on the main menu.
    fn default() -> (state: AppState)
        ensures
            state == AppState::MainMenu,
    {
        AppState::MainMenu
    }
}

/// The difficulty tier of a round, picked on the main menu.
#[derive(Debug, Clone, Copy, PartialEq, Eq, Hash, Structural)]
pub enum GameDifficultyState {
    Easy,
    Medium,
    Hard,
}

impl Default for GameDifficultyState {
    /// Until the player picks one, the tier is medium.
    fn default() -> (difficulty: GameDifficultyState)
        ensures
            difficulty == GameDifficultyState::Medium,
    {
        GameDifficultyState::Medium
    }
}

} // verus!
