//! The main menu, where a round's difficulty is picked.

pub mod mainmenu_ui;
