//! The retry schedule shared by every send of one payment intent: a delay that
//! starts at a floor, doubles on each failure and saturates at a ceiling.

use vstd::prelude::*;

verus! {

/// Delay, in seconds, slept after the first failure.
pub const BACKOFF_FLOOR_SECS: u64 = 2;

/// Largest delay, in seconds, that the schedule ever asks for.
pub const BACKOFF_CEILING_SECS: u64 = 30;

/// Two to the power `n`.
pub open spec fn pow2(n: nat) -> nat
    decreases n,
{
    if n == 0 {
        1
    } else {
        2 * pow2((n - 1) as nat)
    }
}

/// The delay slept after the `n`-th consecutive failure, counted from one:
/// the floor doubled `n - 1` times, cut off at the ceiling.
pub open spec fn backoff_delay(n: nat) -> nat
    recommends
        n >= 1,
{
    let doubled = BACKOFF_FLOOR_SECS as nat * pow2((n - 1) as nat);
    if doubled <= BACKOFF_CEILING_SECS as nat {
        doubled
    } else {
        BACKOFF_CEILING_SECS as nat
    }
}

/// The delay that follows `delay` in the schedule: twice as long, but not
/// beyond the ceiling. A delay at the ceiling stays.
pub open spec fn doubled_capped(delay: nat) -> nat {
    if delay >= BACKOFF_CEILING_SECS as nat {
        delay
    } else if 2 * delay <= BACKOFF_CEILING_SECS as nat {
        2 * delay
    } else {
        BACKOFF_CEILING_SECS as nat
    }
}

/// A counter one step on: it stops at `u64::MAX` rather than wrap.
pub open spec fn counted_up(n: nat) -> nat {
    if n < u64::MAX as nat {
        n + 1
    } else {
        n
    }
}

/// `pow2` never decreases.
pub proof fn lemma_pow2_monotonic(a: nat, b: nat)
    requires
        a <= b,
    ensures
        1 <= pow2(a) <= pow2(b),
    decreases b,
{
    if b == 0 {
    } else if a == b {
        lemma_pow2_monotonic(0, (b - 1) as nat);
    } else {
        lemma_pow2_monotonic(a, (b - 1) as nat);
    }
}

/// One step of the schedule: the delay after failure `n + 1` is the delay
/// after failure `n`, doubled and capped.
pub proof fn lemma_delay_step(n: nat)
    requires
        n >= 1,
    ensures
        backoff_delay(n + 1) == doubled_capped(backoff_delay(n)),
{
    lemma_pow2_monotonic(0, (n - 1) as nat);
    assert(pow2(n) == 2 * pow2((n - 1) as nat));
}

/// From the fifth failure on the delay is the ceiling.
pub proof fn lemma_delay_saturates(n: nat)
    requires
        n >= 5,
    ensures
        backoff_delay(n) == BACKOFF_CEILING_SECS,
{
    assert(pow2(4) == 16) by {
        reveal_with_fuel(pow2, 5);
    }
    lemma_pow2_monotonic(4, (n - 1) as nat);
}

/// The backoff law: after `n` consecutive failures the delay is
/// `min(floor * 2^(n-1), ceiling)`; it lies between floor and ceiling, and a
/// longer run of failures never has a shorter delay.
pub proof fn backoff_schedule_law(n: nat, m: nat)
    requires
        1 <= n <= m,
    ensures
        backoff_delay(n) == vstd::math::min(
            BACKOFF_FLOOR_SECS as int * pow2((n - 1) as nat) as int,
            BACKOFF_CEILING_SECS as int,
        ),
        BACKOFF_FLOOR_SECS <= backoff_delay(n) <= BACKOFF_CEILING_SECS,
        backoff_delay(n) <= backoff_delay(m),
{
    lemma_pow2_monotonic(0, (n - 1) as nat);
    lemma_pow2_monotonic((n - 1) as nat, (m - 1) as nat);
}

/// Where one payment intent stands in its retry schedule.
#[derive(Clone, Copy, Debug, PartialEq, Eq, Structural)]
pub struct Backoff {
    /// Seconds to sleep after the next failure.
    pub delay_secs: u64,
    /// Failures seen so far; stops counting at `u64::MAX`.
    pub failures: u64,
}

impl Backoff {
    /// The delay is the one that the schedule gives for the next failure.
    pub open spec fn wf(&self) -> bool {
        self.delay_secs as nat == backoff_delay(self.failures as nat + 1)
    }

    /// The schedule before any failure.
    pub open spec fn new_spec() -> Backoff {
        Backoff { delay_secs: BACKOFF_FLOOR_SECS, failures: 0 }
    }

    /// The schedule after one more failure: the delay doubled up to the
    /// ceiling, the failure counted.
    pub open spec fn after_failure(self) -> Backoff {
        Backoff {
            delay_secs: doubled_capped(self.delay_secs as nat) as u64,
            failures: counted_up(self.failures as nat) as u64,
        }
    }

    /// A schedule in order stays in order over a failure, and its delay does
    /// not shrink.
    pub proof fn lemma_after_failure(self)
        requires
            self.wf(),
        ensures
            self.after_failure().wf(),
            self.delay_secs as nat == backoff_delay(self.failures as nat + 1),
            self.delay_secs <= self.after_failure().delay_secs <= BACKOFF_CEILING_SECS,
            BACKOFF_FLOOR_SECS <= self.delay_secs,
    {
        backoff_schedule_law(self.failures as nat + 1, self.failures as nat + 1);
        lemma_delay_step(self.failures as nat + 1);
        if self.failures == u64::MAX {
            lemma_delay_saturates(self.failures as nat + 1);
        }
    }

    /// A fresh schedule: no failure yet, the delay at the floor.
    pub fn new() -> (b: Backoff)
        ensures
            b == Backoff::new_spec(),
            b.wf(),
            b.failures == 0,
            b.delay_secs == BACKOFF_FLOOR_SECS,
    {
        Backoff { delay_secs: BACKOFF_FLOOR_SECS, failures: 0 }
    }

    /// Seconds to sleep after the next failure.
    pub fn delay_secs(&self) -> (d: u64)
        ensures
            d == self.delay_secs,
    {
        self.delay_secs
    }

    /// Failures recorded so far.
    pub fn failures(&self) -> (n: u64)
        ensures
            n == self.failures,
    {
        self.failures
    }

    /// Records one failure. Returns the seconds to sleep before the next
    /// attempt, which is the delay as it stood, and moves the schedule on:
    /// the delay doubles, up to the ceiling, and the failure is counted.
    pub fn record_failure(&mut self) -> (sleep_secs: u64)
        ensures
            *final(self) == old(self).after_failure(),
            sleep_secs == old(self).delay_secs,
            old(self).wf() ==> final(self).wf(),
            old(self).wf() ==> sleep_secs as nat == backoff_delay(old(self).failures as nat + 1),
            old(self).wf() ==> old(self).delay_secs <= final(self).delay_secs
                <= BACKOFF_CEILING_SECS,
    {
        let sleep_secs: u64 = self.delay_secs;
        proof {
            if self.wf() {
                self.lemma_after_failure();
            }
        }
        if self.delay_secs < BACKOFF_CEILING_SECS {
            let twice: u64 = self.delay_secs * 2;
            self.delay_secs = if twice <= BACKOFF_CEILING_SECS {
                twice
            } else {
                BACKOFF_CEILING_SECS
            };
        }
        if self.failures < u64::MAX {
            self.failures = self.failures + 1;
        }
        sleep_secs
    }
}

} // verus!
