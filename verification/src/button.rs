//! Buttons: what the pointer does to one, and what the game does in return.

use vstd::prelude::*;

use crate::AppState;
use crate::GameDifficultyState;

verus! {

/// What the pointer is doing to a button.
#[derive(Debug, Clone, Copy, PartialEq, Eq, Hash, Structural)]
pub enum Interaction {
    /// The button is being pressed.
    Pressed,
    /// The pointer rests on the button.
    Hovered,
    /// The pointer is elsewhere.
    Idle,
}

/// How a button is drawn.
#[derive(Debug, Clone, Copy, PartialEq, Eq, Hash, Structural)]
pub enum ButtonLook {
    /// Dark, with a black border.
    Normal,
    /// Lighter, with a white border.
    Hovered,
}

/// What a change of a button's interaction calls for.
#[derive(Debug, Clone, Copy, PartialEq, Eq, Structural)]
pub struct ButtonResponse {
    /// The screen to go to, if any.
    pub next_state: Option<AppState>,
    /// The difficulty to go on with, if the button picks one.
    pub next_difficulty: Option<GameDifficultyState>,
    /// The look to give the button; `None` leaves it as it is.
    pub look: Option<ButtonLook>,
    /// Whether to play the hover sound.
    pub hover_sound: bool,
}

/// The response of a button that leads to `target` and picks `difficulty`.
/// Pressed, it asks for the change of screen and nothing else. Hovered, it
/// lights up and sounds. Left alone, it goes back to its normal look.
pub open spec fn response_of(
    interaction: Interaction,
    target: AppState,
    difficulty: Option<GameDifficultyState>,
) -> ButtonResponse {
    match interaction {
        Interaction::Pressed => ButtonResponse {
            next_state: Some(target),
            next_difficulty: difficulty,
            look: None,
            hover_sound: false,
        },
        Interaction::Hovered => ButtonResponse {
            next_state: None,
            next_difficulty: None,
            look: Some(ButtonLook::Hovered),
            hover_sound: true,
        },
        Interaction::Idle => ButtonResponse {
            next_state: None,
            next_difficulty: None,
            look: Some(ButtonLook::Normal),
            hover_sound: false,
        },
    }
}

/// Computes the response of a button that leads to `target` and picks
/// `difficulty`.
pub fn respond(
    interaction: Interaction,
    target: AppState,
    difficulty: Option<GameDifficultyState>,
) -> (response: ButtonResponse)
    ensures
        response == response_of(interaction, target, difficulty),
{
    match interaction {
        Interaction::Pressed => ButtonResponse {
            next_state: Some(target),
            next_difficulty: difficulty,
            look: None,
            hover_sound: false,
        },
        Interaction::Hovered => ButtonResponse {
            next_state: None,
            next_difficulty: None,
            look: Some(ButtonLook::Hovered),
            hover_sound: true,
        },
        Interaction::Idle => ButtonResponse {
            next_state: None,
            next_difficulty: None,
            look: Some(ButtonLook::Normal),
            hover_sound: false,
        },
    }
}

} // verus!
