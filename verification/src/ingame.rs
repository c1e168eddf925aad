//! The round in play: its score tracker and the rules that run every frame.

use vstd::prelude::*;

use crate::ingame::spawn::m4_frames;
use crate::ingame::spawn::Ball;
use crate::ingame::spawn::BallProfile;
use crate::ingame::spawn::Cooldown;
use crate::ingame::spawn::Round;
use crate::ingame::spawn::GRACE_PERIOD;
use crate::sprites::advance;
use crate::sprites::animation_from_indices;
use crate::sprites::frames_of;
use crate::sprites::playable;
use crate::sprites::playback_of;
use crate::sprites::Playback;
use crate::stage::Stage;
use crate::AppState;
use crate::GameDifficultyState;

pub mod animations;
pub mod gameplay;
pub mod ingame_ui;
pub mod spawn;

verus! {

/// The scores as mathematical integers: the running score of the round, the
/// high score last shown, and the best score kept for every difficulty.
pub struct ScoresView {
    pub current: int,
    pub high: int,
    pub bests: Map<GameDifficultyState, int>,
}

impl ScoresView {
    /// The scores of a game that has just been started: all zero.
    pub open spec fn zero() -> ScoresView {
        ScoresView {
            current: 0,
            high: 0,
            bests: Map::new(
                |difficulty: GameDifficultyState| true,
                |difficulty: GameDifficultyState| 0int,
            ),
        }
    }

    /// The scores after one more hit.
    pub open spec fn hit(self) -> ScoresView {
        ScoresView { current: self.current + 1, ..self }
    }

    /// The scores after `n` more hits.
    pub open spec fn hits(self, n: nat) -> ScoresView
        decreases n,
    {
        if n == 0 {
            self
        } else {
            self.hits((n - 1) as nat).hit()
        }
    }

    /// The scores at the start of a round: the running score is back at zero.
    pub open spec fn started(self) -> ScoresView {
        ScoresView { current: 0, ..self }
    }

    /// The best for `difficulty` once the running score has been committed to it.
    pub open spec fn committed_best(self, difficulty: GameDifficultyState) -> int {
        if self.current > self.bests[difficulty] {
            self.current
        } else {
            self.bests[difficulty]
        }
    }

    /// The scores after the round's score has been committed to `difficulty`:
    /// that difficulty's best is the larger of the old best and the running
    /// score, and the high score shows it.
    pub open spec fn committed(self, difficulty: GameDifficultyState) -> ScoresView {
        ScoresView {
            current: self.current,
            high: self.committed_best(difficulty),
            bests: self.bests.insert(difficulty, self.committed_best(difficulty)),
        }
    }

    /// No score is negative.
    pub open spec fn non_negative(self) -> bool {
        &&& self.current >= 0
        &&& self.high >= 0
        &&& forall|difficulty: GameDifficultyState| #[trigger] self.bests[difficulty] >= 0
    }
}

/// The score tracker. One value of it lives as long as the process: rounds
/// reset the running score and leave the bests.
#[derive(Debug, Clone, Copy, PartialEq, Eq, Structural)]
pub struct Scores {
    pub current_score: i32,
    pub high_score: i32,
    pub easy_hscore: i32,
    pub medium_hscore: i32,
    pub hard_hscore: i32,
}

impl View for Scores {
    type V = ScoresView;

    open spec fn view(&self) -> ScoresView {
        ScoresView {
            current: self.current_score as int,
            high: self.high_score as int,
            bests: Map::new(
                |difficulty: GameDifficultyState| true,
                |difficulty: GameDifficultyState|
                    match difficulty {
                        GameDifficultyState::Easy => self.easy_hscore as int,
                        GameDifficultyState::Medium => self.medium_hscore as int,
                        GameDifficultyState::Hard => self.hard_hscore as int,
                    },
            ),
        }
    }
}

impl Scores {
    /// A tracker with every score at zero.
    pub fn new() -> (scores: Scores)
        ensures
            scores@ == ScoresView::zero(),
            scores@.non_negative(),
    {
        let scores = Scores {
            current_score: 0,
            high_score: 0,
            easy_hscore: 0,
            medium_hscore: 0,
            hard_hscore: 0,
        };
        assert(scores@.bests =~= ScoresView::zero().bests);
        scores
    }

    /// The best score kept for `difficulty`.
    pub fn best(&self, difficulty: GameDifficultyState) -> (best: i32)
        ensures
            best == self@.bests[difficulty],
    {
        match difficulty {
            GameDifficultyState::Easy => self.easy_hscore,
            GameDifficultyState::Medium => self.medium_hscore,
            GameDifficultyState::Hard => self.hard_hscore,
        }
    }

    /// Starts a round: the running score goes back to zero, the bests stay.
    pub fn start_round(&mut self)
        ensures
            final(self)@ == old(self)@.started(),
            old(self)@.non_negative() ==> final(self)@.non_negative(),
    {
        self.current_score = 0;
        assert(self@.bests =~= old(self)@.bests);
    }

    /// Counts one hit on the ball.
    pub fn record_hit(&mut self)
        requires
            old(self).current_score < i32::MAX,
        ensures
            final(self)@ == old(self)@.hit(),
            old(self)@.non_negative() ==> final(self)@.non_negative(),
    {
        self.current_score = self.current_score + 1;
        assert(self@.bests =~= old(self)@.bests);
    }

    /// Ends a round played on `difficulty`: where the running score beats that
    /// difficulty's best it becomes the best, and the high score shows the
    /// best either way. The other difficulties and the running score stay.
    pub fn commit_round(&mut self, difficulty: GameDifficultyState)
        ensures
            final(self)@ == old(self)@.committed(difficulty),
            old(self)@.non_negative() ==> final(self)@.non_negative(),
    {
        match difficulty {
            GameDifficultyState::Easy => {
                self.high_score = self.easy_hscore;
                if self.current_score > self.easy_hscore {
                    self.easy_hscore = self.current_score;
                    self.high_score = self.current_score;
                }
            },
            GameDifficultyState::Medium => {
                self.high_score = self.medium_hscore;
                if self.current_score > self.medium_hscore {
                    self.medium_hscore = self.current_score;
                    self.high_score = self.current_score;
                }
            },
            GameDifficultyState::Hard => {
                self.high_score = self.hard_hscore;
                if self.current_score > self.hard_hscore {
                    self.hard_hscore = self.current_score;
                    self.high_score = self.current_score;
                }
            },
        }
        assert(self@.bests =~= old(self)@.committed(difficulty).bests);
    }
}

/// `n` hits raise the running score by exactly `n` and touch nothing else.
pub proof fn lemma_hits_add_up(scores: ScoresView, n: nat)
    ensures
        scores.hits(n).current == scores.current + n,
        scores.hits(n).high == scores.high,
        scores.hits(n).bests == scores.bests,
    decreases n,
{
    if n > 0 {
        lemma_hits_add_up(scores, (n - 1) as nat);
    }
}

/// Committing a round never lowers the best of its difficulty: the new best is
/// the larger of the old best and the running score. The bests of the other
/// difficulties are as they were.
pub proof fn lemma_commit_keeps_the_larger(
    scores: ScoresView,
    difficulty: GameDifficultyState,
    other: GameDifficultyState,
)
    ensures
        scores.committed(difficulty).bests[difficulty] >= scores.bests[difficulty],
        scores.committed(difficulty).bests[difficulty] >= scores.current,
        scores.committed(difficulty).bests[difficulty] == scores.bests[difficulty]
            || scores.committed(difficulty).bests[difficulty] == scores.current,
        scores.committed(difficulty).high == scores.committed(difficulty).bests[difficulty],
        other != difficulty ==> scores.committed(difficulty).bests[other] == scores.bests[other],
{
}

/// Whether one of the frames `frames`, each a cell and its nanoseconds, shows
/// the cell `cell`.
pub open spec fn shown_in(frames: Seq<(usize, nat)>, cell: usize) -> bool {
    exists|i: int| 0 <= i < frames.len() && (#[trigger] frames[i]).0 == cell
}

/// A sprite-sheet animation: a list of frames, each a cell of the sheet and
/// the nanoseconds for which it is shown. Every animation has a frame, and
/// every frame is shown for some time.
pub struct SpriteAnimation {
    pub(crate) inner: benimator::Animation,
}

impl SpriteAnimation {
    #[verifier::type_invariant]
    pub(crate) open spec fn inv(self) -> bool {
        playable(self.inner)
    }

    /// The frames, in order: cell and nanoseconds.
    pub open(crate) spec fn frames(&self) -> Seq<(usize, nat)> {
        frames_of(self.inner)
    }

    /// Whether the animation stops at its last frame, rather than starting
    /// again.
    pub open(crate) spec fn plays_once(&self) -> bool {
        playback_of(self.inner) == Playback::Once
    }

    /// Whether one of the frames shows the cell `cell`.
    pub open spec fn shows(&self, cell: usize) -> bool {
        shown_in(self.frames(), cell)
    }

    /// The animation that shows the cells from `first` to `last` in turn, each
    /// for `frame_nanos` nanoseconds, and then starts again. There is none
    /// without a cell to show, and none whose frames are shown for no time.
    pub fn from_indices(first: usize, last: usize, frame_nanos: u64) -> (animation: Option<
        SpriteAnimation,
    >)
        ensures
            animation is Some <==> first <= last && frame_nanos > 0,
            animation matches Some(animation) ==> {
                &&& animation.frames() == Seq::new(
                    (last - first + 1) as nat,
                    |i: int| ((first + i) as usize, frame_nanos as nat),
                )
                &&& !animation.plays_once()
            },
    {
        if first <= last && frame_nanos > 0 {
            Some(SpriteAnimation { inner: animation_from_indices(first, last, frame_nanos) })
        } else {
            None
        }
    }

    /// The same frames, played once: the animation stops at its last frame.
    pub fn once(self) -> (once: SpriteAnimation)
        ensures
            once.frames() == self.frames(),
            once.plays_once(),
    {
        proof {
            use_type_invariant(&self);
        }
        SpriteAnimation { inner: self.inner.once() }
    }
}

/// Where a running animation stands. Its view is the cell of the sheet that
/// it shows: the cell that its last update came to, and cell 0 as long as it
/// has not been updated since it was made or reset.
pub struct AnimationState {
    pub(crate) inner: benimator::State,
    pub(crate) frame_index: usize,
}

impl View for AnimationState {
    type V = usize;

    open(crate) spec fn view(&self) -> usize {
        self.frame_index
    }
}

impl AnimationState {
    /// The state of an animation that has not run yet: it shows cell 0.
    pub fn new() -> (state: AnimationState)
        ensures
            state@ == 0,
    {
        AnimationState { inner: benimator::State::new(), frame_index: 0 }
    }

    /// The cell of the sheet that the state shows.
    pub fn frame_index(&self) -> (cell: usize)
        ensures
            cell == self@,
    {
        self.frame_index
    }

    /// Lets `delta` nanoseconds go by on `animation` and says which cell of
    /// the sheet is to be shown now: one of its frames'. The state shows that
    /// cell from now on.
    pub fn update(&mut self, animation: &SpriteAnimation, delta: u64) -> (cell: usize)
        ensures
            animation.shows(cell),
            final(self)@ == cell,
    {
        proof {
            use_type_invariant(animation);
        }
        let cell = advance(&mut self.inner, &animation.inner, delta);
        self.frame_index = cell;
        proof {
            let i = choose|i: int|
                0 <= i < frames_of(animation.inner).len() && (#[trigger] frames_of(
                    animation.inner,
                )[i]).0 == cell;
            assert(animation.frames()[i].0 == cell);
        }
        cell
    }

    /// Puts the state back to where a new one stands: it shows cell 0 again,
    /// whatever it showed before.
    pub fn reset(&mut self)
        ensures
            final(self)@ == 0,
    {
        self.inner.reset();
        self.frame_index = 0;
    }
}

/// Enters a round of `difficulty`: the round is set up, then its score
/// display and the ball of its difficulty are put up. Whatever a round still
/// owned on stage goes first, so that the round's fixed set is there once
/// however often a round is entered. Hands out the round's parts and what the
/// physics engine is to make of the ball.
pub fn enter(stage: &mut Stage, scores: &mut Scores, difficulty: GameDifficultyState) -> (entered:
    (Round, BallProfile))
    ensures
        final(scores)@ == old(scores)@.started(),
        final(stage)@ == crate::stage::entered(
            old(stage)@,
            AppState::InGame,
            Ball::of(difficulty),
        ),
        entered.0.m4@ == Cooldown::Ready,
        entered.0.end_game_timer@ == GRACE_PERIOD,
        entered.0.animation.frames() == m4_frames(),
        !entered.0.animation.plays_once(),
        entered.0.animation_state@ == 0,
        entered.1 == Ball::of(difficulty).profile(),
{
    let round = spawn::setup(stage, scores);
    ingame_ui::ui_setup(stage);
    let profile = match difficulty {
        GameDifficultyState::Easy => spawn::game_difficulty_easy(stage),
        GameDifficultyState::Medium => spawn::game_difficulty_medium(stage),
        GameDifficultyState::Hard => spawn::game_difficulty_hard(stage),
    };
    assert(stage@ =~= crate::stage::entered(
        old(stage)@,
        AppState::InGame,
        Ball::of(difficulty),
    ));
    (round, profile)
}

} // verus!
