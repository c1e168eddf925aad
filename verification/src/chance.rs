//! Chance: the draws that the rules take from outside generators.
//!
//! Nothing is proved of the items in this file. Each states what the outside
//! function does for every outcome it can have; the rules that draw are proved
//! against that and hold whatever number comes back.

use vstd::prelude::*;

verus! {

/// `rand::rngs::ThreadRng`, the generator that each thread seeds from the
/// system. Nothing inside it is visible here.
#[verifier::external_type_specification]
#[verifier::external_body]
pub struct ExThreadRng(rand::rngs::ThreadRng);

/// `rand::thread_rng` hands out the calling thread's generator. Nothing is
/// claimed of it.
pub assume_specification[ rand::thread_rng ]() -> (rng: rand::rngs::ThreadRng)
;

/// `rand::Rng::gen_range` on the closed range from `low` to `high`. It panics
/// on an empty range, which `requires` leaves out; what it returns lies in the
/// range, both ends included. Which number it is, is left open.
#[verifier::external_body]
pub(crate) fn gen_range(rng: &mut rand::rngs::ThreadRng, low: i32, high: i32) -> (drawn: i32)
    requires
        low <= high,
    ensures
        low <= drawn <= high,
{
    rand::Rng::gen_range(rng, low..=high)
}

/// `alea::i32_in_range` draws from the closed range from `min` to `max` with
/// the generator that `alea` keeps for each thread. It panics unless `max` is
/// above `min`, and computes `max + 1 - min` in `i32`; `requires` leaves out
/// where that fails. What it returns lies in the range, both ends included.
pub assume_specification[ alea::i32_in_range ](min: i32, max: i32) -> (drawn: i32)
    requires
        min < max,
        max < i32::MAX,
        max + 1 - min <= i32::MAX,
    ensures
        min <= drawn <= max,
;

} // verus!
