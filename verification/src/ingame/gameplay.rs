//! The rules that run every frame of a round: the weapon's rate of fire, the
//! hit rule and the end of the round.

use vstd::prelude::*;

use crate::chance::gen_range;
use crate::clock::run_down;
use crate::clock::Countdown;
use crate::ingame::spawn::time_of;
use crate::ingame::spawn::Ball;
use crate::ingame::spawn::Cooldown;
use crate::ingame::spawn::EndGameTimer;
use crate::ingame::spawn::FIRE_INTERVAL;
use crate::ingame::spawn::GRACE_PERIOD;
use crate::ingame::spawn::M4;
use crate::ingame::spawn::M4_LAST_CELL;
use crate::ingame::AnimationState;
use crate::ingame::Scores;
use crate::ingame::SpriteAnimation;
use crate::stage::left;
use crate::stage::Stage;
use crate::AppState;

verus! {

/// The height below which the ball is lost, in world units.
pub const FLOOR: i64 = -420;

/// Least upward impulse of a hit, in engine units.
pub const LIFT_MIN: i32 = 500_000;

/// Greatest upward impulse of a hit.
pub const LIFT_MAX: i32 = 900_000;

/// Greatest sideways impulse of a hit, to the left or to the right.
pub const DRIFT_MAX: i32 = 500_000;

/// Greatest torque of a hit, in either sense.
pub const SPIN_MAX: i32 = 10_000_000;

/// Whether the weapon's firing animation is to be played.
#[derive(Debug, Clone, Copy, PartialEq, Eq, Structural)]
pub struct PlayAnimation(pub bool);

/// What came of the trigger in one frame.
#[derive(Debug, Clone, Copy, PartialEq, Eq, Structural)]
pub enum Shot {
    /// No shot: the trigger was not pulled, or the weapon was cooling and the
    /// pull was dropped.
    Held,
    /// A shot that did not meet the ball, or of which the engine could not say.
    Missed,
    /// A shot with the reticle over the ball.
    Hit,
}

/// What a pull of the trigger comes to, given the weapon's state and what the
/// engine says of reticle and ball: `Some(true)` where they overlap.
pub open spec fn shot_of(just_pressed: bool, cooldown: Cooldown, overlap: Option<bool>) -> Shot {
    if just_pressed && cooldown == Cooldown::Ready {
        if overlap == Some(true) {
            Shot::Hit
        } else {
            Shot::Missed
        }
    } else {
        Shot::Held
    }
}

/// What a hit does to the ball: it stops dead, then is thrown up and to a side
/// and set spinning. The velocities are what the ball's are set to before the
/// impulse is applied.
#[derive(Debug, Clone, Copy, PartialEq, Eq, Structural)]
pub struct Jump {
    pub linvel_x: i32,
    pub linvel_y: i32,
    pub angvel: i32,
    pub impulse_x: i32,
    pub impulse_y: i32,
    pub torque_impulse: i32,
}

impl Jump {
    /// The jump made of three draws: the ball's velocities are zeroed and the
    /// draws become its impulse, unchanged.
    pub fn from_draws(lift: i32, drift: i32, spin: i32) -> (jump: Jump)
        ensures
            jump == (Jump {
                linvel_x: 0,
                linvel_y: 0,
                angvel: 0,
                impulse_x: drift,
                impulse_y: lift,
                torque_impulse: spin,
            }),
    {
        Jump {
            linvel_x: 0,
            linvel_y: 0,
            angvel: 0,
            impulse_x: drift,
            impulse_y: lift,
            torque_impulse: spin,
        }
    }

    /// The ball stops before it is thrown, and the throw is within the bounds
    /// of a hit.
    pub open spec fn within_bounds(self) -> bool {
        &&& self.linvel_x == 0
        &&& self.linvel_y == 0
        &&& self.angvel == 0
        &&& LIFT_MIN <= self.impulse_y <= LIFT_MAX
        &&& -DRIFT_MAX <= self.impulse_x <= DRIFT_MAX
        &&& -SPIN_MAX <= self.torque_impulse <= SPIN_MAX
    }
}

/// Runs the weapon's cooldown for a frame of `delta` nanoseconds. A cooling
/// weapon is ready again once its interval has gone by; a ready one stays so.
pub fn m4_firerate_timer(m4: &mut M4, delta: u64)
    ensures
        final(m4)@ == old(m4)@.ticked(delta as nat),
{
    proof {
        use_type_invariant(&*m4);
    }
    if !m4.okay_to_shoot {
        let mut lifetime = m4.lifetime;
        lifetime.tick(delta);
        *m4 = M4 { lifetime, okay_to_shoot: lifetime.finished() };
    }
}

/// The trigger. A pull on a ready weapon fires: the weapon starts to cool for
/// the full interval, its animation is switched on, and the shot is a hit
/// where `overlap` says that reticle and ball overlap. Without a pull, or with
/// the weapon cooling, nothing happens at all.
pub fn ball_contact_checker(
    just_pressed: bool,
    overlap: Option<bool>,
    m4: &mut M4,
    play_animation: &mut PlayAnimation,
) -> (shot: Shot)
    ensures
        shot == shot_of(just_pressed, old(m4)@, overlap),
        shot == Shot::Held ==> *final(m4) == *old(m4),
        shot == Shot::Held ==> *final(play_animation) == *old(play_animation),
        shot != Shot::Held ==> final(m4)@ == Cooldown::Cooling(FIRE_INTERVAL as nat),
        shot != Shot::Held ==> final(play_animation).0,
{
    proof {
        use_type_invariant(&*m4);
    }
    if just_pressed && m4.okay_to_shoot {
        *m4 = M4 { lifetime: Countdown::from_nanos(FIRE_INTERVAL), okay_to_shoot: false };
        play_animation.0 = true;
        match overlap {
            Some(true) => Shot::Hit,
            _ => Shot::Missed,
        }
    } else {
        Shot::Held
    }
}

/// A hit on the ball: the score goes up by one and the ball jumps. The jump's
/// impulse is drawn afresh for every hit, within the bounds of a hit.
pub fn ball_movement(scores: &mut Scores) -> (jump: Jump)
    requires
        old(scores).current_score < i32::MAX,
    ensures
        final(scores)@ == old(scores)@.hit(),
        jump.within_bounds(),
{
    let mut rng = rand::thread_rng();
    scores.record_hit();
    let lift = gen_range(&mut rng, LIFT_MIN, LIFT_MAX);
    let drift = gen_range(&mut rng, -DRIFT_MAX, DRIFT_MAX);
    let spin = gen_range(&mut rng, -SPIN_MAX, SPIN_MAX);
    Jump::from_draws(lift, drift, spin)
}

/// The weapon's firing animation. While it is switched on it runs for a frame
/// of `delta` nanoseconds and the cell to show comes back; once it shows the
/// sheet's last cell it is switched off and its state put back to the start,
/// where it shows cell 0. While it is switched off nothing happens.
pub fn m4_animation(
    delta: u64,
    state: &mut AnimationState,
    animation: &SpriteAnimation,
    play_animation: &mut PlayAnimation,
) -> (cell: Option<usize>)
    ensures
        !old(play_animation).0 ==> cell is None,
        !old(play_animation).0 ==> *final(state) == *old(state),
        !old(play_animation).0 ==> !final(play_animation).0,
        old(play_animation).0 ==> cell is Some && animation.shows(cell->0),
        old(play_animation).0 ==> final(play_animation).0 == (cell->0 != M4_LAST_CELL),
        old(play_animation).0 ==> final(state)@ == if cell->0 == M4_LAST_CELL {
            0
        } else {
            cell->0
        },
{
    if play_animation.0 {
        let shown = state.update(animation, delta);
        if shown == M4_LAST_CELL {
            play_animation.0 = false;
            state.reset();
        }
        Some(shown)
    } else {
        None
    }
}

/// What is left of the grace period after one frame: it runs down while the
/// ball is below the floor, and stands still in a frame with the ball at or
/// above it.
pub open spec fn grace_after(remaining: nat, ball_height: int, delta: nat) -> nat {
    if ball_height < FLOOR {
        run_down(remaining, delta)
    } else {
        remaining
    }
}

/// What is left of the grace period after the frames `frames`, each given as
/// the ball's height and the frame's length.
pub open spec fn grace_after_each(remaining: nat, frames: Seq<(int, nat)>) -> nat
    decreases frames.len(),
{
    if frames.len() == 0 {
        remaining
    } else {
        grace_after(
            grace_after_each(remaining, frames.drop_last()),
            frames.last().0,
            frames.last().1,
        )
    }
}

/// The time that the ball spent below the floor in the frames `frames`.
pub open spec fn time_below(frames: Seq<(int, nat)>) -> nat
    decreases frames.len(),
{
    if frames.len() == 0 {
        0
    } else if frames.last().0 < FLOOR {
        time_below(frames.drop_last()) + frames.last().1
    } else {
        time_below(frames.drop_last())
    }
}

/// The time that went by in the frames `frames`, wherever the ball was.
pub open spec fn time_in(frames: Seq<(int, nat)>) -> nat
    decreases frames.len(),
{
    if frames.len() == 0 {
        0
    } else {
        time_in(frames.drop_last()) + frames.last().1
    }
}

/// The end of the round. `ball_height` is the ball's height in world units,
/// rounded down. While the ball is below the floor the timer runs; in a frame
/// with the ball at or above the floor it stands still and keeps what has run.
/// The round is over in a frame with the ball below the floor and the timer
/// run out.
pub fn gameover_controller(ball_height: i64, delta: u64, timer: &mut EndGameTimer) -> (over: bool)
    ensures
        final(timer)@ == grace_after(old(timer)@, ball_height as int, delta as nat),
        over == (ball_height < FLOOR && final(timer)@ == 0),
{
    if ball_height < FLOOR {
        timer.lifetime.tick(delta);
        timer.lifetime.finished()
    } else {
        false
    }
}

/// Closes a round played with `ball`: the round's score is committed to the
/// ball's difficulty, and all that the round owns leaves the stage.
pub fn entity_despawner(ball: Ball, scores: &mut Scores, stage: &mut Stage)
    ensures
        final(scores)@ == old(scores)@.committed(ball.difficulty()),
        final(stage)@ == left(old(stage)@, AppState::InGame),
{
    scores.commit_round(ball.difficulty());
    stage.despawn_owned_by(AppState::InGame);
}

/// A weapon that has just fired cools for exactly the interval between two
/// shots, whatever is done to the trigger meanwhile. Over the frames that
/// follow the shot, as long as their lengths come to less than the interval
/// the weapon is cooling with the rest of the interval to go, and every pull
/// is dropped. In the frame that completes the interval the weapon is ready,
/// and a pull in that very frame fires again.
pub proof fn lemma_cooldown_lasts_the_interval(frames: Seq<(nat, bool)>)
    ensures
        Cooldown::Ready.fired() == Cooldown::Cooling(FIRE_INTERVAL as nat),
        time_of(frames) < FIRE_INTERVAL ==> Cooldown::Ready.fired().framed_each(frames)
            == Cooldown::Cooling((FIRE_INTERVAL - time_of(frames)) as nat),
        frames.len() > 0 && time_of(frames.drop_last()) < FIRE_INTERVAL <= time_of(frames)
            ==> Cooldown::Ready.fired().framed_each(frames) == if frames.last().1 {
            Cooldown::Cooling(FIRE_INTERVAL as nat)
        } else {
            Cooldown::Ready
        },
    decreases frames.len(),
{
    if frames.len() > 0 {
        lemma_cooldown_lasts_the_interval(frames.drop_last());
    }
}

/// The grace period runs down by the time that the ball spent below the floor,
/// and by nothing else: frames with the ball at or above the floor, and frames
/// of no length, leave it as it is, and it never starts anew.
pub proof fn lemma_grace_runs_down_below_the_floor(remaining: nat, frames: Seq<(int, nat)>)
    ensures
        grace_after_each(remaining, frames) == run_down(remaining, time_below(frames)),
    decreases frames.len(),
{
    if frames.len() > 0 {
        lemma_grace_runs_down_below_the_floor(remaining, frames.drop_last());
    }
}

/// With the ball below the floor in every frame, the time below the floor is
/// the time that went by.
pub proof fn lemma_time_below_is_all_time(frames: Seq<(int, nat)>)
    requires
        forall|i: int| 0 <= i < frames.len() ==> (#[trigger] frames[i]).0 < FLOOR,
    ensures
        time_below(frames) == time_in(frames),
    decreases frames.len(),
{
    if frames.len() > 0 {
        lemma_time_below_is_all_time(frames.drop_last());
    }
}

/// Once the ball has dropped below the floor and stays there, the round ends
/// exactly one grace period later: a fresh timer has run out after the frames
/// `frames` if and only if their lengths come to the grace period, and until
/// then it has the rest of the grace period to go.
pub proof fn lemma_round_ends_after_the_grace_period(frames: Seq<(int, nat)>)
    requires
        forall|i: int| 0 <= i < frames.len() ==> (#[trigger] frames[i]).0 < FLOOR,
    ensures
        grace_after_each(GRACE_PERIOD as nat, frames) == 0 <==> time_in(frames) >= GRACE_PERIOD,
        time_in(frames) < GRACE_PERIOD ==> grace_after_each(GRACE_PERIOD as nat, frames)
            == GRACE_PERIOD - time_in(frames),
{
    lemma_grace_runs_down_below_the_floor(GRACE_PERIOD as nat, frames);
    lemma_time_below_is_all_time(frames);
}

} // verus!
