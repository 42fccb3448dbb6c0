//! The wave footer's bookkeeping: the animation ticker and how the footer's
//! width is shared among its five segments.

use vstd::prelude::*;

use crate::engine::{animation_end, animation_start, AnimationCounter};

verus! {

/// Number of segments of the wave footer.
pub const WAVE_SEGMENTS: usize = 5;

/// Drives the wave animation and keeps the running-animation count honest.
#[derive(Debug)]
pub struct WaveTicker {
    tick: usize,
    active: bool,
}

impl WaveTicker {
    /// The tick reached.
    pub closed spec fn tick_count(&self) -> usize {
        self.tick
    }

    /// Whether the wave is running.
    pub closed spec fn running(&self) -> bool {
        self.active
    }

    /// A stopped ticker at tick zero.
    pub fn new() -> (r: Self)
        ensures
            r.tick_count() == 0,
            !r.running(),
    {
        WaveTicker { tick: 0, active: false }
    }

    /// Advance one tick; the first tick of a run counts one more running
    /// animation. Returns the new tick.
    pub fn advance(&mut self, counter: &mut AnimationCounter) -> (r: usize)
        ensures
            r == final(self).tick_count(),
            final(self).tick_count() == old(self).tick_count().wrapping_add(1),
            final(self).running(),
            old(self).running() ==> final(counter)@ == old(counter)@,
            !old(self).running() ==> final(counter)@ == old(counter)@.wrapping_add(1),
    {
        self.tick = self.tick.wrapping_add(1);
        if !self.active {
            animation_start(counter);
            self.active = true;
        }
        self.tick
    }

    /// Stop the wave: a running wave counts one running animation less; the
    /// tick goes back to zero.
    pub fn stop(&mut self, counter: &mut AnimationCounter)
        ensures
            final(self).tick_count() == 0,
            !final(self).running(),
            old(self).running() ==> final(counter)@ == old(counter)@.wrapping_sub(1),
            !old(self).running() ==> final(counter)@ == old(counter)@,
    {
        if self.active {
            animation_end(counter);
            self.active = false;
        }
        self.tick = 0;
    }

    /// The tick reached.
    pub fn current_tick(&self) -> (r: usize)
        ensures
            r == self.tick_count(),
    {
        self.tick
    }

    /// Whether the wave is running.
    pub fn is_active(&self) -> (r: bool)
        ensures
            r == self.running(),
    {
        self.active
    }
}

impl Default for WaveTicker {
    fn default() -> (r: Self)
        ensures
            r.tick_count() == 0,
            !r.running(),
    {
        WaveTicker::new()
    }
}

/// Law: starting a stopped wave and stopping it again leaves the count of
/// running animations as it was.
pub proof fn lemma_wave_start_stop(count: u64)
    ensures
        count.wrapping_add(1).wrapping_sub(1) == count,
{
}

/// How many of the columns `0..n` of a footer `width` wide fall in segment
/// `seg` (column `x` falls in segment `x * 5 / width`).
pub open spec fn spec_segment_columns(width: nat, seg: nat, n: nat) -> nat
    decreases n,
{
    if n == 0 {
        0
    } else {
        spec_segment_columns(width, seg, (n - 1) as nat) + if (((n - 1) * 5) as nat) / width == seg { 1nat } else { 0nat }
    }
}

/// The width of each of the five segments of a footer `width` columns wide.
pub fn segment_widths(width: u16) -> (r: Vec<u16>)
    ensures
        r@.len() == WAVE_SEGMENTS,
        forall|i: int| 0 <= i < 5 ==> r@[i] as nat == spec_segment_columns(width as nat, i as nat, width as nat),
{
    let mut widths: Vec<u16> = vec![0, 0, 0, 0, 0];
    let w = width as usize;
    let mut x: usize = 0;
    while x < w
        invariant
            w == width as usize,
            x <= w,
            widths@.len() == 5,
            forall|i: int| 0 <= i < 5 ==> widths@[i] as nat == spec_segment_columns(w as nat, i as nat, x as nat),
            forall|i: int| 0 <= i < 5 ==> widths@[i] <= x,
        decreases w - x,
    {
        let seg = (x * 5) / w;
        assert(seg < 5) by (nonlinear_arith)
            requires x < w, seg as int == (x as int * 5) / (w as int);
        let ghost old_widths = widths@;
        let v = widths[seg] + 1;
        widths.set(seg, v);
        proof {
            assert forall|i: int| 0 <= i < 5 implies widths@[i] as nat == spec_segment_columns(w as nat, i as nat, (x + 1) as nat) by {
                assert(spec_segment_columns(w as nat, i as nat, (x + 1) as nat)
                    == spec_segment_columns(w as nat, i as nat, x as nat) + if (((x as nat) * 5) as nat) / (w as nat) == i { 1nat } else { 0nat });
            }
        }
        x = x + 1;
    }
    widths
}

} // verus!
