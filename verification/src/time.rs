//! The dual frame clock.
//!
//! A [`Frame`] is a pair of monotonically increasing counters.  Both advance
//! on every simulated frame, except that the "without freeze" counter skips
//! frames frozen by a hitstop effect.  Every duration in the simulation
//! (state timers, animation delays, input-buffer windows) is the difference
//! of two `Frame` values under one of the counters; a `Frame` is a plain
//! value with no wall-clock meaning.

use vstd::prelude::*;

verus! {

/// A point on the dual frame clock.
#[derive(Debug, Clone, Copy, PartialEq, Eq, Hash, Structural)]
pub struct Frame {
    /// Count of all simulated frames.
    pub frame_with_freeze: usize,
    /// Count of simulated frames that were not frozen.
    pub frame_without_freeze: usize,
}

/// The clock value after one tick: the with-freeze counter always advances,
/// the without-freeze counter advances only on unfrozen frames.
pub open spec fn frame_ticked(f: Frame, frozen: bool) -> Frame {
    Frame {
        frame_with_freeze: (f.frame_with_freeze + 1) as usize,
        frame_without_freeze: if frozen {
            f.frame_without_freeze
        } else {
            (f.frame_without_freeze + 1) as usize
        },
    }
}

/// The clock value after a whole sequence of ticks with the given freeze
/// flags, applied in order.
pub open spec fn frame_after(f: Frame, flags: Seq<bool>) -> Frame
    decreases flags.len(),
{
    if flags.len() == 0 {
        f
    } else {
        frame_after(frame_ticked(f, flags.first()), flags.drop_first())
    }
}

/// How many entries of a freeze-flag sequence are unfrozen frames.
pub open spec fn count_unfrozen(flags: Seq<bool>) -> nat
    decreases flags.len(),
{
    if flags.len() == 0 {
        0
    } else {
        (if !flags.first() {
            1nat
        } else {
            0nat
        }) + count_unfrozen(flags.drop_first())
    }
}

impl Frame {
    /// The clock at the start of a match: both counters zero.
    pub fn new() -> (r: Frame)
        ensures
            r.frame_with_freeze == 0,
            r.frame_without_freeze == 0,
    {
        Frame { frame_with_freeze: 0, frame_without_freeze: 0 }
    }

    /// Advances the clock by one simulated frame.  The counters are far from
    /// saturating in any real match; the machine limit is stated rather than
    /// handled.
    pub fn tick(&mut self, frozen: bool)
        requires
            old(self).frame_with_freeze < usize::MAX,
            old(self).frame_without_freeze < usize::MAX,
        ensures
            *final(self) == frame_ticked(*old(self), frozen),
            final(self).frame_with_freeze == old(self).frame_with_freeze + 1,
            final(self).frame_without_freeze == old(self).frame_without_freeze + (
            if frozen {
                0int
            } else {
                1int
            }),
    {
        self.frame_with_freeze = self.frame_with_freeze + 1;
        if !frozen {
            self.frame_without_freeze = self.frame_without_freeze + 1;
        }
    }

    /// Elapsed unfrozen frames since `frame`, which must not lie ahead of
    /// `self` on that counter.
    pub fn since_without_freeze(self, frame: Frame) -> (r: usize)
        requires
            frame.frame_without_freeze <= self.frame_without_freeze,
        ensures
            r == self.frame_without_freeze - frame.frame_without_freeze,
    {
        self.frame_without_freeze - frame.frame_without_freeze
    }

    /// Elapsed simulated frames since `frame`, which must not lie ahead of
    /// `self` on that counter.
    pub fn since_with_freeze(self, frame: Frame) -> (r: usize)
        requires
            frame.frame_with_freeze <= self.frame_with_freeze,
        ensures
            r == self.frame_with_freeze - frame.frame_with_freeze,
    {
        self.frame_with_freeze - frame.frame_with_freeze
    }
}

/// Frame monotonicity: over any sequence of ticks, both counters are
/// non-decreasing; the with-freeze counter grows by exactly the number of
/// ticks and the without-freeze counter by exactly the number of unfrozen
/// ticks — so it increases precisely on the calls where `frozen` is false.
pub proof fn lemma_frame_monotonic(f: Frame, flags: Seq<bool>)
    requires
        f.frame_with_freeze + flags.len() <= usize::MAX,
        f.frame_without_freeze + flags.len() <= usize::MAX,
    ensures
        frame_after(f, flags).frame_with_freeze == f.frame_with_freeze + flags.len(),
        frame_after(f, flags).frame_without_freeze == f.frame_without_freeze + count_unfrozen(
            flags,
        ),
        frame_after(f, flags).frame_with_freeze >= f.frame_with_freeze,
        frame_after(f, flags).frame_without_freeze >= f.frame_without_freeze,
    decreases flags.len(),
{
    lemma_count_unfrozen_bound(flags);
    if flags.len() > 0 {
        lemma_count_unfrozen_bound(flags.drop_first());
        lemma_frame_monotonic(frame_ticked(f, flags.first()), flags.drop_first());
    }
}

/// At most every flag in the sequence is unfrozen.
proof fn lemma_count_unfrozen_bound(flags: Seq<bool>)
    ensures
        count_unfrozen(flags) <= flags.len(),
    decreases flags.len(),
{
    if flags.len() > 0 {
        lemma_count_unfrozen_bound(flags.drop_first());
    }
}

} // verus!
