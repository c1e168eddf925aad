//! Sprite-sheet animation, as the `benimator` crate provides it.
//!
//! Nothing is proved of the items in this file: they say what `benimator` does,
//! as its source shows it. An animation is a list of frames, each a cell of
//! the sprite sheet and the time for which it is shown; a state walks through
//! the list as frame time goes by.

use vstd::prelude::*;

verus! {

/// `benimator::Animation`: the frames of an animation and the way it repeats.
#[verifier::external_type_specification]
#[verifier::external_body]
pub struct ExAnimation(benimator::Animation);

/// `benimator::State`: where a running animation stands.
#[verifier::external_type_specification]
#[verifier::external_body]
pub struct ExState(benimator::State);

/// The frames that an animation holds, in order: each the index of a cell of
/// the sprite sheet and the nanoseconds for which it is shown.
pub uninterp spec fn frames_of(animation: benimator::Animation) -> Seq<(usize, nat)>;

/// What an animation does after its last frame.
pub enum Playback {
    /// It starts again.
    Repeat,
    /// It stops there.
    Once,
    /// It runs back to its first frame, and forth again.
    PingPong,
}

/// The playback of an animation.
pub uninterp spec fn playback_of(animation: benimator::Animation) -> Playback;

/// An animation that a state can be run on: it has a frame, every frame is
/// shown for some time that a frame length can measure, and it does not run
/// back and forth. On others `benimator` may panic or never return.
pub open spec fn playable(animation: benimator::Animation) -> bool {
    &&& frames_of(animation).len() > 0
    &&& forall|i: int|
        0 <= i < frames_of(animation).len() ==> 0 < (#[trigger] frames_of(animation)[i]).1
            <= u64::MAX
    &&& playback_of(animation) != Playback::PingPong
}

/// Whether one of an animation's frames shows the cell `cell`.
pub open spec fn shows(animation: benimator::Animation, cell: usize) -> bool {
    exists|i: int|
        0 <= i < frames_of(animation).len() && (#[trigger] frames_of(animation)[i]).0 == cell
}

/// `benimator::Animation::from_indices` on the cells from `first` to `last`,
/// with a rate made by `benimator::FrameRate::from_frame_duration`. It panics
/// on a frame duration of zero, which `requires` leaves out. The animation
/// holds one frame for each cell, in rising order, each shown for
/// `frame_nanos`; it starts again after its last frame.
#[verifier::external_body]
pub(crate) fn animation_from_indices(first: usize, last: usize, frame_nanos: u64) -> (animation:
    benimator::Animation)
    requires
        frame_nanos > 0,
    ensures
        frames_of(animation) == Seq::new(
            if first <= last {
                (last - first + 1) as nat
            } else {
                0
            },
            |i: int| ((first + i) as usize, frame_nanos as nat),
        ),
        playback_of(animation) == Playback::Repeat,
{
    benimator::Animation::from_indices(
        first..=last,
        benimator::FrameRate::from_frame_duration(core::time::Duration::from_nanos(frame_nanos)),
    )
}

/// `benimator::Animation::once` makes the animation stop at its last frame.
/// The frames stay as they are.
pub assume_specification[ benimator::Animation::once ](animation: benimator::Animation) -> (once:
    benimator::Animation)
    ensures
        frames_of(once) == frames_of(animation),
        playback_of(once) == Playback::Once,
;

/// `benimator::State::new` makes a state that has shown nothing yet. Nothing
/// is claimed of it.
pub assume_specification[ benimator::State::new ]() -> (state: benimator::State)
;

/// `benimator::State::reset` puts a state back to where a new one stands.
/// Nothing is claimed of it.
pub assume_specification[ benimator::State::reset ](state: &mut benimator::State)
;

/// `benimator::State::update` by `delta_nanos`, then
/// `benimator::State::frame_index`. The update panics on an animation without
/// frames and on one that runs back and forth over a single frame, and does
/// not return on a frame that is shown for no time; `requires` leaves these
/// out. It adds the frame's length to the time that the state has spent in its
/// frame. The states of this crate are made by `benimator::State::new` and run
/// by this function alone, on playable animations: that time is less than a
/// frame's duration after every update, so the sum stays far within what a
/// duration can hold. The cell that comes back is that of one of the
/// animation's frames; which one depends on the state.
#[verifier::external_body]
pub(crate) fn advance(
    state: &mut benimator::State,
    animation: &benimator::Animation,
    delta_nanos: u64,
) -> (shown: usize)
    requires
        playable(*animation),
    ensures
        shows(*animation, shown),
{
    state.update(animation, core::time::Duration::from_nanos(delta_nanos));
    state.frame_index()
}

} // verus!
