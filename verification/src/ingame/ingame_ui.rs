//! The score display of a round.

use vstd::prelude::*;

use crate::ingame::Scores;
use crate::stage::EntityKind;
use crate::stage::Stage;
use crate::text::decimal;
use crate::text::to_decimal;

verus! {

/// Puts the score display on stage.
pub fn ui_setup(stage: &mut Stage)
    ensures
        final(stage)@ == old(stage)@.push(EntityKind::ScoreText),
{
    stage.spawn(EntityKind::ScoreText);
}

/// The text of the score display: the running score in decimal notation.
pub fn ui_update(scores: &Scores) -> (text: String)
    ensures
        text@ == decimal(scores@.current),
{
    to_decimal(scores.current_score)
}

} // verus!
