//! The main menu's entities and its three buttons.

use vstd::prelude::*;
use vstd::string::StringExecFns;

use crate::button::respond;
use crate::button::response_of;
use crate::button::ButtonResponse;
use crate::button::Interaction;
use crate::ingame::Scores;
use crate::ingame::ScoresView;
use crate::stage::left;
use crate::stage::main_menu_set;
use crate::stage::EntityKind;
use crate::stage::Stage;
use crate::text::decimal;
use crate::text::push_decimal;
use crate::AppState;
use crate::GameDifficultyState;

verus! {

/// The labels of the main menu's buttons.
#[derive(Debug, PartialEq, Eq)]
pub struct MenuLabels {
    pub easy: String,
    pub medium: String,
    pub hard: String,
}

impl MenuLabels {
    /// Each label names its difficulty and shows the best that `scores` keeps
    /// for it.
    pub open spec fn shows(self, scores: ScoresView) -> bool {
        &&& self.easy@ == "EASY: "@ + decimal(scores.bests[GameDifficultyState::Easy])
        &&& self.medium@ == "MEDIUM: "@ + decimal(scores.bests[GameDifficultyState::Medium])
        &&& self.hard@ == "HARD: "@ + decimal(scores.bests[GameDifficultyState::Hard])
    }
}

/// Puts the main menu up: whatever the menu still owned goes, and the title
/// and the three buttons are put up. Each button is labelled with its
/// difficulty and the best score kept for it.
pub fn setup(stage: &mut Stage, scores: &Scores) -> (labels: MenuLabels)
    ensures
        final(stage)@ == left(old(stage)@, AppState::MainMenu) + main_menu_set(),
        labels.shows(scores@),
{
    stage.despawn_owned_by(AppState::MainMenu);
    stage.spawn(EntityKind::Title);
    stage.spawn(EntityKind::EasyButton);
    stage.spawn(EntityKind::MediumButton);
    stage.spawn(EntityKind::HardButton);
    let mut easy = String::from_str("EASY: ");
    push_decimal(&mut easy, scores.easy_hscore);
    let mut medium = String::from_str("MEDIUM: ");
    push_decimal(&mut medium, scores.medium_hscore);
    let mut hard = String::from_str("HARD: ");
    push_decimal(&mut hard, scores.hard_hscore);
    MenuLabels { easy, medium, hard }
}

/// The button for an easy round: pressed, it starts a round on easy.
pub fn easy_button_system(interaction: Interaction) -> (response: ButtonResponse)
    ensures
        response == response_of(
            interaction,
            AppState::InGame,
            Some(GameDifficultyState::Easy),
        ),
{
    respond(interaction, AppState::InGame, Some(GameDifficultyState::Easy))
}

/// The button for a medium round: pressed, it starts a round on medium.
pub fn medium_button_system(interaction: Interaction) -> (response: ButtonResponse)
    ensures
        response == response_of(
            interaction,
            AppState::InGame,
            Some(GameDifficultyState::Medium),
        ),
{
    respond(interaction, AppState::InGame, Some(GameDifficultyState::Medium))
}

/// The button for a hard round: pressed, it starts a round on hard.
pub fn hard_button_system(interaction: Interaction) -> (response: ButtonResponse)
    ensures
        response == response_of(
            interaction,
            AppState::InGame,
            Some(GameDifficultyState::Hard),
        ),
{
    respond(interaction, AppState::InGame, Some(GameDifficultyState::Hard))
}

/// Takes the main menu down: all that it owns leaves the stage.
pub fn entity_despawner(stage: &mut Stage)
    ensures
        final(stage)@ == left(old(stage)@, AppState::MainMenu),
{
    stage.despawn_owned_by(AppState::MainMenu);
}

} // verus!
