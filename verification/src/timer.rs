//! A one-shot countdown.

use vstd::prelude::*;

verus! {

/// A countdown over `duration` nanoseconds. It runs down as it is ticked and
/// reports the tick on which it reaches zero, once.
#[derive(Clone, Copy, Debug, PartialEq, Eq, Structural)]
pub struct Timer {
    /// The time the countdown starts from.
    pub duration: u64,
    /// The time that is left.
    pub remaining: u64,
    /// Whether the countdown has reached zero and reported it.
    pub finished: bool,
}

impl Timer {
    /// What holds of every countdown that was made by [`Timer::new`] and
    /// changed only by [`Timer::tick`] and [`Timer::reset`].
    pub open spec fn wf(self) -> bool {
        &&& self.remaining <= self.duration
        &&& self.finished ==> self.remaining == 0
    }

    /// A countdown that has not started to run.
    pub open spec fn fresh(duration: u64) -> Timer {
        Timer { duration, remaining: duration, finished: false }
    }

    /// Whether a tick of `delta` is the one on which the countdown reaches zero.
    pub open spec fn completes(self, delta: u64) -> bool {
        !self.finished && delta >= self.remaining
    }

    /// The countdown after a tick of `delta`. A finished countdown stays as it is.
    pub open spec fn ticked(self, delta: u64) -> Timer {
        if self.finished {
            self
        } else if delta >= self.remaining {
            Timer { duration: self.duration, remaining: 0, finished: true }
        } else {
            Timer {
                duration: self.duration,
                remaining: (self.remaining - delta) as u64,
                finished: false,
            }
        }
    }

    /// The countdown after one tick for each entry of `deltas`, in order.
    pub open spec fn ticked_all(self, deltas: Seq<u64>) -> Timer
        decreases deltas.len(),
    {
        if deltas.len() == 0 {
            self
        } else {
            self.ticked_all(deltas.drop_last()).ticked(deltas.last())
        }
    }

    /// How many of the ticks in `deltas` report that the countdown reached zero.
    pub open spec fn completions(self, deltas: Seq<u64>) -> nat
        decreases deltas.len(),
    {
        if deltas.len() == 0 {
            0
        } else {
            let before = self.ticked_all(deltas.drop_last());
            self.completions(deltas.drop_last()) + if before.completes(deltas.last()) {
                1nat
            } else {
                0nat
            }
        }
    }

    /// The time that `deltas` add up to.
    pub open spec fn total(deltas: Seq<u64>) -> nat
        decreases deltas.len(),
    {
        if deltas.len() == 0 {
            0
        } else {
            Self::total(deltas.drop_last()) + deltas.last() as nat
        }
    }

    /// A countdown over `duration` that has not started to run.
    pub fn new(duration: u64) -> (timer: Timer)
        ensures
            timer == Timer::fresh(duration),
            timer.wf(),
    {
        Timer { duration, remaining: duration, finished: false }
    }

    /// Lets `delta` pass. Returns `true` on the one tick that brings the
    /// countdown to zero; a finished countdown is left alone.
    pub fn tick(&mut self, delta: u64) -> (done: bool)
        ensures
            *final(self) == old(self).ticked(delta),
            done == old(self).completes(delta),
            old(self).wf() ==> final(self).wf(),
    {
        if self.finished {
            false
        } else if delta >= self.remaining {
            self.remaining = 0;
            self.finished = true;
            true
        } else {
            self.remaining -= delta;
            false
        }
    }

    /// Starts the countdown over from its full duration.
    pub fn reset(&mut self)
        ensures
            *final(self) == Timer::fresh(old(self).duration),
            final(self).wf(),
    {
        self.remaining = self.duration;
        self.finished = false;
    }

    /// Over any run of ticks, a countdown that has not finished reports
    /// completion exactly once if there is at least one tick and the ticks add
    /// up to the time that was left, and not at all otherwise. A finished
    /// countdown never reports again.
    pub proof fn lemma_completes_once(self, deltas: Seq<u64>)
        ensures
            self.completions(deltas) == if !self.finished && deltas.len() > 0 && Self::total(
                deltas,
            ) >= self.remaining {
                1nat
            } else {
                0nat
            },
            self.ticked_all(deltas).finished <==> self.finished || self.completions(deltas) == 1,
            !self.ticked_all(deltas).finished ==> self.ticked_all(deltas).remaining
                == self.remaining - Self::total(deltas),
            self.ticked_all(deltas).duration == self.duration,
        decreases deltas.len(),
    {
        if deltas.len() > 0 {
            self.lemma_completes_once(deltas.drop_last());
        }
    }
}

} // verus!
