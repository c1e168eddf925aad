//! The game-over screen's entities and its two buttons.

use vstd::prelude::*;
use vstd::string::StringExecFns;

use crate::button::respond;
use crate::button::response_of;
use crate::button::ButtonResponse;
use crate::button::Interaction;
use crate::ingame::Scores;
use crate::ingame::ScoresView;
use crate::stage::left;
use crate::stage::game_over_set;
use crate::stage::EntityKind;
use crate::stage::Stage;
use crate::text::decimal;
use crate::text::push_decimal;
use crate::AppState;

verus! {

/// The two lines of score on the game-over screen.
#[derive(Debug, PartialEq, Eq)]
pub struct GameOverLabels {
    pub score: String,
    pub high_score: String,
}

impl GameOverLabels {
    /// The first line shows the round's score of `scores`, the second its
    /// high score.
    pub open spec fn shows(self, scores: ScoresView) -> bool {
        &&& self.score@ == "SCORE: "@ + decimal(scores.current)
        &&& self.high_score@ == "HIGH SCORE: "@ + decimal(scores.high)
    }
}

/// Puts the game-over screen up: whatever it still owned goes, and the title,
/// the two scores and the two buttons are put up. The scores read what the
/// tracker holds: the round's score and the high score.
pub fn setup(stage: &mut Stage, scores: &Scores) -> (labels: GameOverLabels)
    ensures
        final(stage)@ == left(old(stage)@, AppState::GameOver) + game_over_set(),
        labels.shows(scores@),
{
    stage.despawn_owned_by(AppState::GameOver);
    stage.spawn(EntityKind::GameOverTitle);
    stage.spawn(EntityKind::FinalScore);
    stage.spawn(EntityKind::HighScore);
    stage.spawn(EntityKind::HomeButton);
    stage.spawn(EntityKind::RestartButton);
    let mut score = String::from_str("SCORE: ");
    push_decimal(&mut score, scores.current_score);
    let mut high_score = String::from_str("HIGH SCORE: ");
    push_decimal(&mut high_score, scores.high_score);
    GameOverLabels { score, high_score }
}

/// The button back to the main menu. It picks no difficulty.
pub fn home_button_system(interaction: Interaction) -> (response: ButtonResponse)
    ensures
        response == response_of(interaction, AppState::MainMenu, None),
{
    respond(interaction, AppState::MainMenu, None)
}

/// The button for another round, on the difficulty of the last one.
pub fn restart_button_system(interaction: Interaction) -> (response: ButtonResponse)
    ensures
        response == response_of(interaction, AppState::InGame, None),
{
    respond(interaction, AppState::InGame, None)
}

/// Takes the game-over screen down: all that it owns leaves the stage.
pub fn entity_despawner(stage: &mut Stage)
    ensures
        final(stage)@ == left(old(stage)@, AppState::GameOver),
{
    stage.despawn_owned_by(AppState::GameOver);
}

} // verus!
