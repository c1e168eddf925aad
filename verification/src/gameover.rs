//! The game-over screen, which shows how the round went.

pub mod gameover_ui;
