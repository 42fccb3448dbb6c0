//! Demand-driven animation bookkeeping.
//!
//! The event loop asks how long to wait for input: while at least one
//! animation is running it wakes at roughly 60 frames per second, otherwise
//! it sleeps for a gentle idle tick.

use std::time::Duration;
use vstd::prelude::*;

use crate::clock::{duration_from_millis, spec_duration_from_millis};

verus! {

/// Poll timeout, in milliseconds, while some animation is active.
pub const ANIMATION_TICK_MS: u64 = 16;

/// Poll timeout, in milliseconds, while nothing animates.
pub const IDLE_TICK_MS: u64 = 100;

/// Suggested buffer size for the primary event bus.
pub const BACKPRESSURE_BUFFER: usize = 1024;

/// Counter of the animations currently running.
pub struct AnimationCounter {
    active: u64,
}

impl View for AnimationCounter {
    type V = u64;

    closed spec fn view(&self) -> u64 {
        self.active
    }
}

impl AnimationCounter {
    /// A counter with no animation running.
    pub fn new() -> (r: Self)
        ensures
            r@ == 0,
    {
        AnimationCounter { active: 0 }
    }

    /// Number of animations currently running.
    pub fn active(&self) -> (r: u64)
        ensures
            r == self@,
    {
        self.active
    }

    /// Overwrite the number of running animations.
    pub fn set_active(&mut self, active: u64)
        ensures
            final(self)@ == active,
    {
        self.active = active;
    }
}

/// The poll timeout in milliseconds for a given number of running animations.
pub open spec fn spec_poll_timeout_ms(active: u64) -> u64 {
    if active > 0 { ANIMATION_TICK_MS } else { IDLE_TICK_MS }
}

/// Start tracking a new animation (the count wraps like an atomic counter).
pub fn animation_start(counter: &mut AnimationCounter)
    ensures
        final(counter)@ == old(counter)@.wrapping_add(1),
{
    counter.active = counter.active.wrapping_add(1);
}

/// Stop tracking an animation (the count wraps like an atomic counter).
pub fn animation_end(counter: &mut AnimationCounter)
    ensures
        final(counter)@ == old(counter)@.wrapping_sub(1),
{
    counter.active = counter.active.wrapping_sub(1);
}

/// The poll timeout, in milliseconds, that the event loop should use.
pub fn poll_timeout_ms(counter: &AnimationCounter) -> (r: u64)
    ensures
        r == spec_poll_timeout_ms(counter@),
{
    if counter.active > 0 {
        ANIMATION_TICK_MS
    } else {
        IDLE_TICK_MS
    }
}

/// The poll timeout the event loop should use: a 60 FPS tick while some
/// animation runs, the idle tick otherwise.
pub fn poll_timeout(counter: &AnimationCounter) -> (r: Duration)
    ensures
        r == spec_duration_from_millis(spec_poll_timeout_ms(counter@)),
{
    duration_from_millis(poll_timeout_ms(counter))
}

} // verus!
