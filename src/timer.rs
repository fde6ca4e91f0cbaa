use vstd::prelude::*;

use vstd::arithmetic::div_mod::{lemma_fundamental_div_mod, lemma_fundamental_div_mod_converse, lemma_mod_pos_bound};

use crate::error::LifecycleError;

verus! {

/// An edge-triggered interval accumulator, one-shot or repeating.
///
/// `just_finished` holds for exactly the tick in which the timer fired, and
/// `times_finished` counts every firing since the timer was made.
#[derive(Clone, Copy, Debug, PartialEq, Eq, Structural)]
pub struct Timer {
    pub duration: u64,
    pub elapsed: u64,
    pub repeating: bool,
    pub just_finished: bool,
    pub times_finished: u64,
}

impl Timer {
    /// A timer as it is made: nothing elapsed, never fired.
    pub open spec fn initial(duration: u64, repeating: bool) -> Timer {
        Timer { duration, elapsed: 0, repeating, just_finished: false, times_finished: 0 }
    }

    /// A one-shot timer that has fired stays paused at its duration.
    pub open spec fn wf(self) -> bool {
        &&& self.duration > 0
        &&& !self.repeating ==> {
            ||| self.times_finished == 0 && self.elapsed < self.duration && !self.just_finished
            ||| self.times_finished == 1 && self.elapsed == self.duration
        }
    }

    /// Whether a tick of `delta` makes the timer fire.
    pub open spec fn fires(self, delta: u64) -> bool {
        &&& self.repeating || self.times_finished == 0
        &&& self.elapsed + delta >= self.duration
    }

    /// The timer after one tick of `delta`: at most one firing per tick, a
    /// repeating timer gives back one duration, a one-shot timer pauses at
    /// its duration.
    pub open spec fn ticked(self, delta: u64) -> Timer {
        if !self.repeating && self.times_finished > 0 {
            Timer { just_finished: false, ..self }
        } else if self.elapsed + delta >= self.duration {
            Timer {
                elapsed: if self.repeating {
                    (self.elapsed + delta - self.duration) as u64
                } else {
                    self.duration
                },
                just_finished: true,
                times_finished: (self.times_finished + 1) as u64,
                ..self
            }
        } else {
            Timer { elapsed: (self.elapsed + delta) as u64, just_finished: false, ..self }
        }
    }

    /// The timer after a tick of each delta of `deltas`, in order.
    pub open spec fn ticked_all(self, deltas: Seq<u64>) -> Timer
        decreases deltas.len(),
    {
        if deltas.len() == 0 {
            self
        } else {
            self.ticked_all(deltas.drop_last()).ticked(deltas.last())
        }
    }

    /// Makes a timer of `duration` nanoseconds; a zero duration is refused.
    pub fn new(duration: u64, repeating: bool) -> (r: Result<Timer, LifecycleError>)
        ensures
            duration == 0 ==> r == Err::<Timer, LifecycleError>(LifecycleError::InvalidDuration),
            duration > 0 ==> r == Ok::<Timer, LifecycleError>(Timer::initial(duration, repeating)),
            r matches Ok(t) ==> t.wf(),
    {
        if duration == 0 {
            Err(LifecycleError::InvalidDuration)
        } else {
            Ok(Timer { duration, elapsed: 0, repeating, just_finished: false, times_finished: 0 })
        }
    }

    /// Advances the timer by `delta` nanoseconds.
    pub fn tick(&mut self, delta: u64)
        requires
            old(self).wf(),
            old(self).elapsed + delta <= u64::MAX,
            old(self).times_finished < u64::MAX,
        ensures
            *final(self) == old(self).ticked(delta),
            final(self).wf(),
            final(self).just_finished == old(self).fires(delta),
            final(self).elapsed <= old(self).elapsed + delta,
            final(self).times_finished <= old(self).times_finished + 1,
    {
        if !self.repeating && self.times_finished > 0 {
            self.just_finished = false;
        } else if self.elapsed + delta >= self.duration {
            if self.repeating {
                self.elapsed = self.elapsed + delta - self.duration;
            } else {
                self.elapsed = self.duration;
            }
            self.just_finished = true;
            self.times_finished = self.times_finished + 1;
        } else {
            self.elapsed = self.elapsed + delta;
            self.just_finished = false;
        }
    }
}

/// The time that a run of ticks adds up to.
pub open spec fn total(deltas: Seq<u64>) -> int
    decreases deltas.len(),
{
    if deltas.len() == 0 {
        0
    } else {
        total(deltas.drop_last()) + deltas.last()
    }
}

proof fn repeating_run(d: u64, delta: u64, deltas: Seq<u64>)
    requires
        0 < d,
        delta <= d,
        d + delta <= u64::MAX,
        deltas.len() <= u64::MAX,
        forall|i: int| 0 <= i < deltas.len() ==> deltas[i] == delta,
    ensures
        ({
            let n = deltas.len() as int;
            let t = Timer::initial(d, true).ticked_all(deltas);
            &&& t.duration == d
            &&& t.repeating
            &&& t.times_finished == (n * delta) / (d as int)
            &&& t.elapsed == (n * delta) % (d as int)
            &&& n >= 1 ==> t.just_finished == ((n * delta) / (d as int) > ((n - 1) * delta) / (d as int))
        }),
    decreases deltas.len(),
{
    let n = deltas.len() as int;
    let dd = d as int;
    if n == 0 {
        assert(0 * delta == 0);
    } else {
        let p = deltas.drop_last();
        repeating_run(d, delta, p);
        let q = ((n - 1) * delta) / dd;
        let r = ((n - 1) * delta) % dd;
        lemma_fundamental_div_mod((n - 1) * delta, dd);
        lemma_mod_pos_bound((n - 1) * delta, dd);
        assert(n * delta == (n - 1) * delta + delta) by (nonlinear_arith);
        assert(dd * q == q * dd) by (nonlinear_arith);
        assert(q <= n - 1) by (nonlinear_arith)
            requires
                q == ((n - 1) * delta) / dd,
                (n - 1) * delta == dd * q + r,
                0 <= r,
                0 < dd,
                delta <= dd,
                n >= 1,
        ;
        if r + delta >= dd {
            assert(n * delta == (q + 1) * dd + (r + delta - dd)) by (nonlinear_arith)
                requires
                    n * delta == (n - 1) * delta + delta,
                    (n - 1) * delta == q * dd + r,
            ;
            lemma_fundamental_div_mod_converse(n * delta, dd, q + 1, r + delta - dd);
        } else {
            assert(n * delta == q * dd + (r + delta)) by (nonlinear_arith)
                requires
                    n * delta == (n - 1) * delta + delta,
                    (n - 1) * delta == q * dd + r,
            ;
            lemma_fundamental_div_mod_converse(n * delta, dd, q, r + delta);
        }
    }
}

/// A repeating timer of duration `d`, ticked by a constant `delta` no longer
/// than `d`, has fired `floor(n * delta / d)` times after `n` ticks, and
/// fires on exactly those ticks at which the time run so far crosses a
/// multiple of `d`.
pub proof fn repeating_timer_fires_on_multiples(d: u64, delta: u64, deltas: Seq<u64>)
    requires
        0 < d,
        delta <= d,
        d + delta <= u64::MAX,
        deltas.len() <= u64::MAX,
        forall|i: int| 0 <= i < deltas.len() ==> deltas[i] == delta,
    ensures
        forall|k: int|
            #![trigger deltas.take(k)]
            0 <= k <= deltas.len() ==> Timer::initial(d, true).ticked_all(deltas.take(k)).times_finished
                == (k * delta) / (d as int),
        forall|k: int|
            #![trigger deltas.take(k)]
            1 <= k <= deltas.len() ==> Timer::initial(d, true).ticked_all(deltas.take(k)).just_finished
                == ((k * delta) / (d as int) > ((k - 1) * delta) / (d as int)),
{
    assert forall|k: int| 0 <= k <= deltas.len() implies ({
        let t = Timer::initial(d, true).ticked_all(#[trigger] deltas.take(k));
        &&& t.times_finished == (k * delta) / (d as int)
        &&& k >= 1 ==> t.just_finished == ((k * delta) / (d as int) > ((k - 1) * delta) / (d as int))
    }) by {
        repeating_run(d, delta, deltas.take(k));
    }
}

proof fn one_shot_run(d: u64, deltas: Seq<u64>)
    requires
        0 < d,
        total(deltas) <= u64::MAX,
    ensures
        ({
            let t = Timer::initial(d, false).ticked_all(deltas);
            &&& t.duration == d
            &&& !t.repeating
            &&& t.times_finished == (if total(deltas) >= d { 1int } else { 0int })
            &&& t.elapsed == (if total(deltas) >= d { d as int } else { total(deltas) })
            &&& t.just_finished == (deltas.len() > 0 && total(deltas) >= d && total(
                deltas.drop_last(),
            ) < d)
        }),
    decreases deltas.len(),
{
    if deltas.len() > 0 {
        one_shot_run(d, deltas.drop_last());
    }
}

/// A one-shot timer of duration `d` fires on the first tick at which the time
/// run so far reaches `d`, on no other tick, and so exactly once.
pub proof fn one_shot_timer_fires_once(d: u64, deltas: Seq<u64>)
    requires
        0 < d,
        total(deltas) <= u64::MAX,
    ensures
        forall|k: int|
            #![trigger deltas.take(k)]
            1 <= k <= deltas.len() ==> Timer::initial(d, false).ticked_all(deltas.take(k)).just_finished
                == (total(deltas.take(k)) >= d && total(deltas.take(k - 1)) < d),
        Timer::initial(d, false).ticked_all(deltas).times_finished == (if total(deltas) >= d {
            1int
        } else {
            0int
        }),
{
    one_shot_run(d, deltas);
    assert forall|k: int| 1 <= k <= deltas.len() implies Timer::initial(d, false).ticked_all(
        #[trigger] deltas.take(k),
    ).just_finished == (total(deltas.take(k)) >= d && total(deltas.take(k - 1)) < d) by {
        prefix_total(deltas, k);
        one_shot_run(d, deltas.take(k));
        assert(deltas.take(k).drop_last() =~= deltas.take(k - 1));
    }
}

/// The time of a prefix of a run is no more than that of the run.
proof fn prefix_total(deltas: Seq<u64>, k: int)
    requires
        0 <= k <= deltas.len(),
    ensures
        total(deltas.take(k)) <= total(deltas),
    decreases deltas.len(),
{
    if k < deltas.len() {
        prefix_total(deltas.drop_last(), k);
        assert(deltas.drop_last().take(k) =~= deltas.take(k));
    } else {
        assert(deltas.take(k) =~= deltas);
    }
}

} // verus!
