//! The effects of a shot: the muzzle flash, the casing and the spark on the
//! ball.

use vstd::prelude::*;

use crate::clock::run_down;
use crate::clock::Countdown;
use crate::ingame::AnimationState;
use crate::ingame::SpriteAnimation;
use crate::stage::without_one;
use crate::stage::EntityKind;
use crate::stage::Stage;

verus! {

/// How long a muzzle flash stays, in nanoseconds: a fifth of a second.
pub const FLASH_LIFETIME: u64 = 200_000_000;

/// Time for which a frame of the spark is shown: a sixteenth of a second.
pub const CONTACT_FRAME: u64 = 62_500_000;

/// Time for which a frame of the muzzle flash is shown: a twenty-fourth of a
/// second, to the nearest nanosecond.
pub const FIRE_FRAME: u64 = 41_666_667;

/// Least speed at which a casing flies off to the right.
pub const CASING_SPEED_MIN: i32 = 4500;

/// Greatest speed at which a casing flies off to the right.
pub const CASING_SPEED_MAX: i32 = 5500;

/// The speed at which every casing rises.
pub const CASING_RISE: i32 = 1000;

/// The fastest spin of a casing. Casings spin clockwise, so the angular
/// velocity is negative and this is its least value.
pub const CASING_SPIN_MIN: i32 = -15;

/// The slowest spin of a casing.
pub const CASING_SPIN_MAX: i32 = -5;

/// The time that a muzzle flash has left. Its view is the nanoseconds.
#[derive(Debug, Clone, Copy)]
pub struct BulletCase {
    pub lifetime: Countdown,
}

impl View for BulletCase {
    type V = nat;

    open spec fn view(&self) -> nat {
        self.lifetime@
    }
}

/// The velocity with which a casing leaves the weapon.
#[derive(Debug, Clone, Copy, PartialEq, Eq, Structural)]
pub struct CasingLaunch {
    pub linvel_x: i32,
    pub linvel_y: i32,
    pub angvel: i32,
}

impl CasingLaunch {
    /// The launch made of two draws: the casing rises at the fixed speed and
    /// takes its speed to the right and its spin from the draws.
    pub fn from_draws(speed: i32, spin: i32) -> (launch: CasingLaunch)
        ensures
            launch == (CasingLaunch { linvel_x: speed, linvel_y: CASING_RISE, angvel: spin }),
    {
        CasingLaunch { linvel_x: speed, linvel_y: CASING_RISE, angvel: spin }
    }

    /// The casing rises at the fixed speed, and its speed to the right and its
    /// spin are within their bounds.
    pub open spec fn within_bounds(self) -> bool {
        &&& CASING_SPEED_MIN <= self.linvel_x <= CASING_SPEED_MAX
        &&& self.linvel_y == CASING_RISE
        &&& CASING_SPIN_MIN <= self.angvel <= CASING_SPIN_MAX
    }
}

/// What a hit puts on stage: the spark with its animation.
pub struct ContactEffects {
    pub animation: SpriteAnimation,
    pub animation_state: AnimationState,
}

/// What a shot puts on stage: the flash with its animation, and the casing.
pub struct FireEffects {
    pub animation: SpriteAnimation,
    pub animation_state: AnimationState,
    pub flash: BulletCase,
    pub casing: CasingLaunch,
}

/// The frames of an animation that shows the cells from 0 to `last` in turn,
/// each for `frame_nanos` nanoseconds.
pub open spec fn strip(last: usize, frame_nanos: u64) -> Seq<(usize, nat)> {
    Seq::new((last + 1) as nat, |i: int| (i as usize, frame_nanos as nat))
}

/// Puts the spark of a hit on stage. Its animation shows the five cells of its
/// sheet once, sixteen to the second.
pub fn contact_spawn(stage: &mut Stage) -> (effects: ContactEffects)
    ensures
        final(stage)@ == old(stage)@.push(EntityKind::Contact),
        effects.animation.frames() == strip(4, CONTACT_FRAME),
        effects.animation.plays_once(),
        effects.animation_state@ == 0,
{
    stage.spawn(EntityKind::Contact);
    let animation = SpriteAnimation::from_indices(0, 4, CONTACT_FRAME).unwrap().once();
    assert(animation.frames() =~= strip(4, CONTACT_FRAME));
    ContactEffects { animation, animation_state: AnimationState::new() }
}

/// Runs a spark's animation for a frame of `delta` nanoseconds and says which
/// cell of its sheet to show.
pub fn contact_animation(delta: u64, state: &mut AnimationState, animation: &SpriteAnimation) -> (cell:
    usize)
    ensures
        animation.shows(cell),
        final(state)@ == cell,
{
    state.update(animation, delta)
}

/// Puts the effects of a shot on stage: the muzzle flash, then the casing.
/// The flash shows the three cells of its sheet once, twenty-four to the
/// second, and stays for a fifth of a second. The casing's launch is drawn
/// afresh for every shot, within its bounds.
pub fn fire_spawn(stage: &mut Stage) -> (effects: FireEffects)
    ensures
        final(stage)@ == old(stage)@.push(EntityKind::Fire).push(EntityKind::BulletCase),
        effects.animation.frames() == strip(2, FIRE_FRAME),
        effects.animation.plays_once(),
        effects.animation_state@ == 0,
        effects.flash@ == FLASH_LIFETIME,
        effects.casing.within_bounds(),
{
    stage.spawn(EntityKind::Fire);
    let animation = SpriteAnimation::from_indices(0, 2, FIRE_FRAME).unwrap().once();
    assert(animation.frames() =~= strip(2, FIRE_FRAME));
    stage.spawn(EntityKind::BulletCase);
    let speed = alea::i32_in_range(CASING_SPEED_MIN, CASING_SPEED_MAX);
    let spin = alea::i32_in_range(CASING_SPIN_MIN, CASING_SPIN_MAX);
    FireEffects {
        animation,
        animation_state: AnimationState::new(),
        flash: BulletCase { lifetime: Countdown::from_nanos(FLASH_LIFETIME) },
        casing: CasingLaunch::from_draws(speed, spin),
    }
}

/// Runs a muzzle flash's animation for a frame of `delta` nanoseconds and says
/// which cell of its sheet to show.
pub fn fire_animation(delta: u64, state: &mut AnimationState, animation: &SpriteAnimation) -> (cell:
    usize)
    ensures
        animation.shows(cell),
        final(state)@ == cell,
{
    state.update(animation, delta)
}

/// Runs a muzzle flash's lifetime for a frame of `delta` nanoseconds. In the
/// frame in which the time is up, one flash leaves the stage and the sound of
/// a casing on the ground is due; the result says so.
pub fn bullet_case_despawn(delta: u64, flash: &mut BulletCase, stage: &mut Stage) -> (gone: bool)
    ensures
        final(flash)@ == run_down(old(flash)@, delta as nat),
        gone == (final(flash)@ == 0),
        final(stage)@ == if gone {
            without_one(old(stage)@, EntityKind::Fire)
        } else {
            old(stage)@
        },
{
    flash.lifetime.tick(delta);
    if flash.lifetime.finished() {
        stage.despawn_one(EntityKind::Fire);
        true
    } else {
        false
    }
}

} // verus!
