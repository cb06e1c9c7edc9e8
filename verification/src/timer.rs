//! Per-connection deadline and retry-budget state machine.
//!
//! A timer is idle until the first acknowledgment-requiring chunk arms it
//! with `reset`. While armed, `check_timeout` compares the time elapsed
//! since the last restart against the local ACK timeout: before the
//! timeout it reports "not timed out"; at or after it, it spends one retry
//! and restarts the accumulator; with no retries left it reports the
//! terminal error.

use vstd::prelude::*;

use vstd::arithmetic::power2::pow2;

verus! {

/// Terminal, connection-level failure: the retry budget was exhausted
/// after repeated local ACK timeouts.
#[derive(Clone, Copy, Debug, PartialEq, Eq, Structural)]
pub struct TimerExhausted;

/// Nanoseconds encoded by a verbs-style timeout exponent:
/// `4.096 microseconds * 2^exp`.
pub open spec fn timeout_ns_spec(exp: u8) -> int {
    4096 * pow2(exp as nat) as int
}

/// Elapsed nanoseconds from `last` to `now`; a clock reading that moved
/// backwards counts as nothing elapsed.
pub open spec fn elapsed_ns(last: u64, now: u64) -> int {
    if now >= last {
        now - last
    } else {
        0
    }
}

/// Converts a verbs-style timeout exponent to nanoseconds.
pub fn exp_to_ns(exp: u8) -> (r: u64)
    requires
        exp <= 51,
    ensures
        r == timeout_ns_spec(exp),
{
    proof {
        vstd::arithmetic::power2::lemma2_to64();
        vstd::arithmetic::power2::lemma2_to64_rest();
        if exp < 51 {
            vstd::arithmetic::power2::lemma_pow2_strictly_increases(exp as nat, 51);
        }
        vstd::arithmetic::mul::lemma_mul_inequality(
            pow2(exp as nat) as int,
            pow2(51) as int,
            4096,
        );
        vstd::bits::lemma_u64_shl_is_mul(4096u64, exp as u64);
    }
    4096u64 << (exp as u64)
}

/// Per-connection elapsed-time accumulator and remaining-retry counter.
#[derive(Clone, Copy, Debug)]
pub struct TransportTimer {
    /// Local ACK timeout in nanoseconds.
    pub timeout_ns: u64,
    /// Retry budget restored by each `reset`.
    pub init_retry_count: usize,
    /// Clock reading of the last arm/restart; `None` while idle.
    pub last_reset_ns: Option<u64>,
    /// Retries left before the timer reports exhaustion.
    pub retry_counter: usize,
}

impl TransportTimer {
    /// Whether the armed timer's deadline has passed at `now_ns`. An idle
    /// timer never expires.
    pub open spec fn expired(self, now_ns: u64) -> bool {
        match self.last_reset_ns {
            Some(last) => elapsed_ns(last, now_ns) >= self.timeout_ns,
            None => false,
        }
    }

    /// State after one `check_timeout` call at `now_ns`: a timeout with
    /// retries left spends one retry and restarts the accumulator; any
    /// other call leaves the timer unchanged.
    pub open spec fn check_spec(self, now_ns: u64) -> TransportTimer {
        if self.expired(now_ns) && self.retry_counter > 0 {
            TransportTimer {
                last_reset_ns: Some(now_ns),
                retry_counter: (self.retry_counter - 1) as usize,
                ..self
            }
        } else {
            self
        }
    }

    /// Verdict of one `check_timeout` call at `now_ns`.
    pub open spec fn check_result_spec(self, now_ns: u64) -> Result<bool, TimerExhausted> {
        if !self.expired(now_ns) {
            Ok(false)
        } else if self.retry_counter > 0 {
            Ok(true)
        } else {
            Err(TimerExhausted)
        }
    }

    /// Creates an idle timer configured with the local ACK timeout
    /// exponent and the initial retry budget.
    pub fn new(local_ack_timeout_exp: u8, init_retry_count: usize) -> (r: Self)
        requires
            local_ack_timeout_exp <= 51,
        ensures
            r == (TransportTimer {
                timeout_ns: timeout_ns_spec(local_ack_timeout_exp) as u64,
                init_retry_count,
                last_reset_ns: None::<u64>,
                retry_counter: init_retry_count,
            }),
    {
        TransportTimer {
            timeout_ns: exp_to_ns(local_ack_timeout_exp),
            init_retry_count,
            last_reset_ns: None,
            retry_counter: init_retry_count,
        }
    }

    /// Arms the timer: clears the elapsed time and restores the retry
    /// counter to the configured initial value.
    pub fn reset(&mut self, now_ns: u64)
        ensures
            *final(self) == (TransportTimer {
                last_reset_ns: Some(now_ns),
                retry_counter: old(self).init_retry_count,
                ..*old(self)
            }),
    {
        self.last_reset_ns = Some(now_ns);
        self.retry_counter = self.init_retry_count;
    }

    /// Checks the deadline at `now_ns`. Returns `Ok(false)` while idle or
    /// before the timeout has elapsed since the last restart; `Ok(true)`
    /// at or after the timeout while retries remain, spending exactly one
    /// retry and restarting the accumulator; `Err` once the budget is
    /// exhausted, leaving the timer unchanged.
    pub fn check_timeout(&mut self, now_ns: u64) -> (r: Result<bool, TimerExhausted>)
        ensures
            *final(self) == old(self).check_spec(now_ns),
            r == old(self).check_result_spec(now_ns),
    {
        let last = match self.last_reset_ns {
            None => {
                return Ok(false);
            },
            Some(last) => last,
        };
        let elapsed: u64 = if now_ns >= last {
            now_ns - last
        } else {
            0
        };
        if elapsed < self.timeout_ns {
            Ok(false)
        } else if self.retry_counter > 0 {
            self.retry_counter = self.retry_counter - 1;
            self.last_reset_ns = Some(now_ns);
            Ok(true)
        } else {
            Err(TimerExhausted)
        }
    }
}

/// Timer state after a sequence of `check_timeout` calls at the given
/// clock readings.
pub open spec fn timer_after_checks(t: TransportTimer, nows: Seq<u64>) -> TransportTimer
    decreases nows.len(),
{
    if nows.len() == 0 {
        t
    } else {
        timer_after_checks(t.check_spec(nows[0]), nows.skip(1))
    }
}

/// Retry exhaustion: an armed timer with `retry_counter` retries left,
/// checked at `retry_counter` consecutive deadlines without an
/// intervening reset, reports "timed out" on every one of those checks,
/// ends with an empty budget, and yields the terminal error on the next
/// check at or after one more timeout interval.
pub proof fn lemma_retry_exhaustion(t: TransportTimer, nows: Seq<u64>, final_now: u64)
    requires
        t.last_reset_ns is Some,
        nows.len() == t.retry_counter,
        nows.len() > 0 ==> nows[0] >= t.last_reset_ns->Some_0 + t.timeout_ns,
        forall|i: int| 0 < i < nows.len() ==> #[trigger] nows[i] >= nows[i - 1] + t.timeout_ns,
        nows.len() == 0 ==> final_now >= t.last_reset_ns->Some_0 + t.timeout_ns,
        nows.len() > 0 ==> final_now >= nows[nows.len() - 1] + t.timeout_ns,
    ensures
        forall|i: int|
            0 <= i < nows.len() ==> timer_after_checks(t, nows.take(i)).check_result_spec(nows[i])
                == Ok::<bool, TimerExhausted>(true),
        timer_after_checks(t, nows).retry_counter == 0,
        timer_after_checks(t, nows).check_result_spec(final_now) == Err::<bool, TimerExhausted>(
            TimerExhausted,
        ),
    decreases nows.len(),
{
    if nows.len() == 0 {
        assert(t.expired(final_now));
    } else {
        let t1 = t.check_spec(nows[0]);
        assert(t.expired(nows[0]));
        assert(t1 == (TransportTimer {
            last_reset_ns: Some(nows[0]),
            retry_counter: (t.retry_counter - 1) as usize,
            ..t
        }));
        let rest = nows.skip(1);
        lemma_retry_exhaustion(t1, rest, final_now);
        assert(timer_after_checks(t, nows) == timer_after_checks(t1, rest));
        assert forall|i: int| 0 <= i < nows.len() implies timer_after_checks(
            t,
            nows.take(i),
        ).check_result_spec(nows[i]) == Ok::<bool, TimerExhausted>(true) by {
            if i == 0 {
                assert(nows.take(0).len() == 0);
                assert(timer_after_checks(t, nows.take(0)) == t);
            } else {
                assert(nows.take(i)[0] == nows[0]);
                assert(nows.take(i).skip(1) =~= rest.take(i - 1));
                assert(timer_after_checks(t, nows.take(i)) == timer_after_checks(
                    t1,
                    rest.take(i - 1),
                ));
                assert(rest[i - 1] == nows[i]);
            }
        }
    }
}

} // verus!
