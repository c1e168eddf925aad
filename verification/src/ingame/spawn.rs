//! What a round is made of: the ball of each difficulty, the weapon and the
//! timer that ends the round.

use vstd::prelude::*;

use crate::clock::Countdown;
use crate::ingame::AnimationState;
use crate::ingame::Scores;
use crate::ingame::SpriteAnimation;
use crate::stage::left;
use crate::stage::round_base;
use crate::stage::EntityKind;
use crate::stage::Stage;
use crate::AppState;
use crate::GameDifficultyState;

verus! {

/// Time between two shots, in nanoseconds: a fifth of a second.
pub const FIRE_INTERVAL: u64 = 200_000_000;

/// Time between the ball's fall below the floor and the end of the round, in
/// nanoseconds: half a second.
pub const GRACE_PERIOD: u64 = 500_000_000;

/// Time for which a frame of the weapon's firing animation is shown: a
/// thirtieth of a second, to the nearest nanosecond.
pub const M4_FRAME: u64 = 33_333_333;

/// The last cell of the weapon's sheet. The sheet has the cells from 0 to
/// this one.
pub const M4_LAST_CELL: usize = 4;

/// The ball, by the difficulty it was made for.
#[derive(Debug, Clone, Copy, PartialEq, Eq, Hash, Structural)]
pub enum Ball {
    Easy,
    Medium,
    Hard,
}

impl Ball {
    /// The ball that a round of `difficulty` is played with.
    #[verifier::when_used_as_spec(spec_of)]
    pub fn of(difficulty: GameDifficultyState) -> (ball: Ball)
        ensures
            ball == Ball::spec_of(difficulty),
            ball.difficulty() == difficulty,
    {
        match difficulty {
            GameDifficultyState::Easy => Ball::Easy,
            GameDifficultyState::Medium => Ball::Medium,
            GameDifficultyState::Hard => Ball::Hard,
        }
    }

    /// The ball that a round of `difficulty` is played with.
    pub open spec fn spec_of(difficulty: GameDifficultyState) -> Ball {
        match difficulty {
            GameDifficultyState::Easy => Ball::Easy,
            GameDifficultyState::Medium => Ball::Medium,
            GameDifficultyState::Hard => Ball::Hard,
        }
    }

    /// The difficulty whose best score a round with this ball counts for.
    #[verifier::when_used_as_spec(spec_difficulty)]
    pub fn difficulty(&self) -> (difficulty: GameDifficultyState)
        ensures
            difficulty == self.spec_difficulty(),
    {
        match self {
            Ball::Easy => GameDifficultyState::Easy,
            Ball::Medium => GameDifficultyState::Medium,
            Ball::Hard => GameDifficultyState::Hard,
        }
    }

    /// The difficulty whose best score a round with this ball counts for.
    pub open spec fn spec_difficulty(&self) -> GameDifficultyState {
        match self {
            Ball::Easy => GameDifficultyState::Easy,
            Ball::Medium => GameDifficultyState::Medium,
            Ball::Hard => GameDifficultyState::Hard,
        }
    }
}

/// What the physics engine is told of a ball. Lengths are in world units; the
/// density is in tenths, so that 4 stands for 0.4.
#[derive(Debug, Clone, Copy, PartialEq, Eq, Structural)]
pub struct BallProfile {
    /// Radius of the ball's round collider.
    pub radius: u32,
    /// How many times the world's gravity pulls on the ball.
    pub gravity_scale: u32,
    /// Density of the collider, in tenths. With the radius it fixes the mass.
    pub density_tenths: u32,
    /// Restitution of the collider: 1 gives back all of a bounce.
    pub restitution: u32,
}

impl Ball {
    /// The profile of this ball. The easy ball is large and falls slowly, the
    /// medium one falls fastest, the hard one is half as wide and four times
    /// as dense.
    #[verifier::when_used_as_spec(spec_profile)]
    pub fn profile(&self) -> (profile: BallProfile)
        ensures
            profile == self.spec_profile(),
    {
        match self {
            Ball::Easy => BallProfile {
                radius: 50,
                gravity_scale: 17,
                density_tenths: 1,
                restitution: 1,
            },
            Ball::Medium => BallProfile {
                radius: 50,
                gravity_scale: 30,
                density_tenths: 1,
                restitution: 1,
            },
            Ball::Hard => BallProfile {
                radius: 25,
                gravity_scale: 24,
                density_tenths: 4,
                restitution: 1,
            },
        }
    }

    /// The profile of this ball.
    pub open spec fn spec_profile(&self) -> BallProfile {
        match self {
            Ball::Easy => BallProfile {
                radius: 50,
                gravity_scale: 17,
                density_tenths: 1,
                restitution: 1,
            },
            Ball::Medium => BallProfile {
                radius: 50,
                gravity_scale: 30,
                density_tenths: 1,
                restitution: 1,
            },
            Ball::Hard => BallProfile {
                radius: 25,
                gravity_scale: 24,
                density_tenths: 4,
                restitution: 1,
            },
        }
    }
}

/// The state of the weapon's rate of fire: ready to shoot, or cooling with so
/// many nanoseconds to go.
pub enum Cooldown {
    Ready,
    Cooling(nat),
}

impl Cooldown {
    /// A cooling weapon has time left; one with none left is ready.
    pub open spec fn wf(self) -> bool {
        self matches Cooldown::Cooling(remaining) ==> remaining > 0
    }

    /// The nanoseconds until the weapon is ready.
    pub open spec fn remaining(self) -> nat {
        match self {
            Cooldown::Ready => 0,
            Cooldown::Cooling(remaining) => remaining,
        }
    }

    /// The state with `remaining` nanoseconds to go.
    pub open spec fn with_remaining(remaining: nat) -> Cooldown {
        if remaining == 0 {
            Cooldown::Ready
        } else {
            Cooldown::Cooling(remaining)
        }
    }

    /// The state after a pull of the trigger: a ready weapon starts to cool
    /// for the full interval, a cooling one drops the pull.
    pub open spec fn fired(self) -> Cooldown {
        match self {
            Cooldown::Ready => Cooldown::Cooling(FIRE_INTERVAL as nat),
            Cooldown::Cooling(_) => self,
        }
    }

    /// The state after a frame of `delta` nanoseconds.
    pub open spec fn ticked(self, delta: nat) -> Cooldown {
        Cooldown::with_remaining(crate::clock::run_down(self.remaining(), delta))
    }

    /// The state after a frame of `delta` nanoseconds in which the trigger was
    /// pulled or not: the time goes by first, then the trigger is looked at.
    pub open spec fn framed(self, delta: nat, pulled: bool) -> Cooldown {
        if pulled {
            self.ticked(delta).fired()
        } else {
            self.ticked(delta)
        }
    }

    /// The state after the frames `frames`, each given as its length and
    /// whether the trigger was pulled in it.
    pub open spec fn framed_each(self, frames: Seq<(nat, bool)>) -> Cooldown
        decreases frames.len(),
    {
        if frames.len() == 0 {
            self
        } else {
            self.framed_each(frames.drop_last()).framed(frames.last().0, frames.last().1)
        }
    }
}

/// The time that went by in the frames `frames`, each given as its length and
/// whether the trigger was pulled in it.
pub open spec fn time_of(frames: Seq<(nat, bool)>) -> nat
    decreases frames.len(),
{
    if frames.len() == 0 {
        0
    } else {
        time_of(frames.drop_last()) + frames.last().0
    }
}

/// The weapon. It is ready exactly when its countdown has run out.
#[derive(Debug, Clone, Copy)]
pub struct M4 {
    pub(crate) lifetime: Countdown,
    pub(crate) okay_to_shoot: bool,
}

impl View for M4 {
    type V = Cooldown;

    open(crate) spec fn view(&self) -> Cooldown {
        Cooldown::with_remaining(self.lifetime@)
    }
}

impl M4 {
    #[verifier::type_invariant]
    pub(crate) open spec fn inv(self) -> bool {
        self.okay_to_shoot == (self.lifetime@ == 0)
    }

    /// A weapon fresh from the rack: ready to shoot.
    pub fn new() -> (m4: M4)
        ensures
            m4@ == Cooldown::Ready,
    {
        M4 { lifetime: Countdown::from_nanos(0), okay_to_shoot: true }
    }

    /// Whether a pull of the trigger would fire.
    pub fn okay_to_shoot(&self) -> (ready: bool)
        ensures
            ready == (self@ == Cooldown::Ready),
    {
        proof {
            use_type_invariant(self);
        }
        self.okay_to_shoot
    }

    /// The nanoseconds until the weapon is ready again.
    pub fn remaining(&self) -> (nanos: u64)
        ensures
            nanos == self@.remaining(),
    {
        self.lifetime.remaining()
    }

    /// The view of every weapon is well formed.
    pub proof fn lemma_view_wf(self)
        ensures
            self@.wf(),
    {
    }
}

/// The timer that ends the round. It starts with the whole grace period and
/// runs only while the ball is below the floor. Its view is the nanoseconds
/// left.
#[derive(Debug, Clone, Copy)]
pub struct EndGameTimer {
    pub lifetime: Countdown,
}

impl View for EndGameTimer {
    type V = nat;

    open spec fn view(&self) -> nat {
        self.lifetime@
    }
}

impl EndGameTimer {
    /// A timer with the whole grace period to go.
    pub fn new() -> (timer: EndGameTimer)
        ensures
            timer@ == GRACE_PERIOD,
    {
        EndGameTimer { lifetime: Countdown::from_nanos(GRACE_PERIOD) }
    }
}

/// What a round starts with, besides what is on stage.
pub struct Round {
    /// The weapon, ready to shoot.
    pub m4: M4,
    /// The timer that ends the round, with the whole grace period to go.
    pub end_game_timer: EndGameTimer,
    /// The weapon's firing animation: the cells of its sheet in turn, thirty
    /// to the second.
    pub animation: SpriteAnimation,
    /// Where that animation stands: at its start.
    pub animation_state: AnimationState,
}

/// The frames of the weapon's firing animation.
pub open spec fn m4_frames() -> Seq<(usize, nat)> {
    Seq::new((M4_LAST_CELL + 1) as nat, |i: int| (i as usize, M4_FRAME as nat))
}

impl Round {
    /// The parts of a round that is about to start.
    pub fn new() -> (round: Round)
        ensures
            round.m4@ == Cooldown::Ready,
            round.end_game_timer@ == GRACE_PERIOD,
            round.animation.frames() == m4_frames(),
            !round.animation.plays_once(),
            round.animation_state@ == 0,
    {
        let animation = SpriteAnimation::from_indices(0, M4_LAST_CELL, M4_FRAME).unwrap();
        assert(animation.frames() =~= m4_frames());
        Round {
            m4: M4::new(),
            end_game_timer: EndGameTimer::new(),
            animation,
            animation_state: AnimationState::new(),
        }
    }
}

/// Sets a round up: the running score goes back to zero, whatever an earlier
/// round left on stage goes, and the timer, the backdrop, the weapon, the
/// reticle and the two walls are put up.
pub fn setup(stage: &mut Stage, scores: &mut Scores) -> (round: Round)
    ensures
        final(scores)@ == old(scores)@.started(),
        final(stage)@ == left(old(stage)@, AppState::InGame) + round_base(),
        round.m4@ == Cooldown::Ready,
        round.end_game_timer@ == GRACE_PERIOD,
        round.animation.frames() == m4_frames(),
        !round.animation.plays_once(),
        round.animation_state@ == 0,
{
    scores.start_round();
    stage.despawn_owned_by(AppState::InGame);
    stage.spawn(EntityKind::EndGameTimer);
    stage.spawn(EntityKind::Background);
    stage.spawn(EntityKind::M4);
    stage.spawn(EntityKind::CursorCrosshair);
    stage.spawn(EntityKind::RightWall);
    stage.spawn(EntityKind::LeftWall);
    Round::new()
}

/// Puts the easy ball on stage and says what the physics engine is to make of
/// it.
pub fn game_difficulty_easy(stage: &mut Stage) -> (profile: BallProfile)
    ensures
        final(stage)@ == old(stage)@.push(EntityKind::Ball(Ball::Easy)),
        profile == Ball::Easy.profile(),
{
    stage.spawn(EntityKind::Ball(Ball::Easy));
    Ball::Easy.profile()
}

/// Puts the medium ball on stage and says what the physics engine is to make
/// of it.
pub fn game_difficulty_medium(stage: &mut Stage) -> (profile: BallProfile)
    ensures
        final(stage)@ == old(stage)@.push(EntityKind::Ball(Ball::Medium)),
        profile == Ball::Medium.profile(),
{
    stage.spawn(EntityKind::Ball(Ball::Medium));
    Ball::Medium.profile()
}

/// Puts the hard ball on stage and says what the physics engine is to make of
/// it.
pub fn game_difficulty_hard(stage: &mut Stage) -> (profile: BallProfile)
    ensures
        final(stage)@ == old(stage)@.push(EntityKind::Ball(Ball::Hard)),
        profile == Ball::Hard.profile(),
{
    stage.spawn(EntityKind::Ball(Ball::Hard));
    Ball::Hard.profile()
}

} // verus!
