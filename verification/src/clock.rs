//! Countdowns over frame time.
//!
//! A frame's length comes from the engine as a whole number of nanoseconds. A
//! [`Countdown`] holds the time that is left of some interval and runs down by
//! the frame lengths it is given; it stops at zero.

use vstd::prelude::*;

verus! {

/// What is left of `remaining` once `delta` has gone by: never below zero.
pub open spec fn run_down(remaining: nat, delta: nat) -> nat {
    if remaining > delta {
        (remaining - delta) as nat
    } else {
        0
    }
}

/// A countdown of frame time. Its view is the number of nanoseconds left.
#[derive(Debug, Clone, Copy, PartialEq, Eq, Structural)]
pub struct Countdown {
    remaining: u64,
}

impl View for Countdown {
    type V = nat;

    closed spec fn view(&self) -> nat {
        self.remaining as nat
    }
}

impl Countdown {
    /// A countdown with `nanos` nanoseconds to go.
    pub fn from_nanos(nanos: u64) -> (countdown: Countdown)
        ensures
            countdown@ == nanos,
    {
        Countdown { remaining: nanos }
    }

    /// The nanoseconds left.
    pub fn remaining(&self) -> (nanos: u64)
        ensures
            nanos == self@,
    {
        self.remaining
    }

    /// Whether the countdown has reached zero.
    pub fn finished(&self) -> (done: bool)
        ensures
            done == (self@ == 0),
    {
        self.remaining == 0
    }

    /// Lets `delta` nanoseconds go by.
    pub fn tick(&mut self, delta: u64)
        ensures
            final(self)@ == run_down(old(self)@, delta as nat),
    {
        if self.remaining > delta {
            self.remaining = self.remaining - delta;
        } else {
            self.remaining = 0;
        }
    }
}

} // verus!
