//! Bounded exponential backoff between reconnect attempts.
use vstd::prelude::*;

use vstd::arithmetic::power2::{lemma2_to64, lemma_pow2_adds, pow2};

use crate::span::{span_max_nanos, Span};

verus! {

/// Attempts allowed in one reconnection sequence.
pub const RECONNECT_MAX_ATTEMPTS: u32 = 10;

/// Delay before the first reconnect attempt: 100 ms, in nanoseconds.
pub open spec fn reconnect_initial_nanos() -> nat {
    100_000_000
}

/// Upper bound on the delay between attempts: 10 s, in nanoseconds.
pub open spec fn reconnect_max_nanos() -> nat {
    10_000_000_000
}

/// The delay that attempt number `attempt` (counting from 0) waits:
/// `initial * 2^min(attempt, 16)`, saturating, then capped at `max`.
pub open spec fn delay_for(attempt: nat, initial: nat, max: nat) -> nat {
    let k: nat = if attempt < 16 {
        attempt
    } else {
        16
    };
    let raw = if initial * pow2(k) <= span_max_nanos() {
        initial * pow2(k)
    } else {
        span_max_nanos()
    };
    if raw > max {
        max
    } else {
        raw
    }
}

pub struct BackoffV {
    pub attempt: nat,
    pub max_attempts: nat,
    pub initial: nat,
    pub max: nat,
}

/// The 10 s upper bound on a reconnect delay.
pub fn reconnect_max() -> (d: Span)
    ensures
        d@ == reconnect_max_nanos(),
{
    Span::from_secs(10)
}

/// The 100 ms delay before the first reconnect attempt.
pub fn reconnect_initial() -> (d: Span)
    ensures
        d@ == reconnect_initial_nanos(),
{
    Span::from_millis(100)
}

/// Exponential backoff state for one reconnection sequence.
#[derive(Debug)]
pub struct BackoffState {
    attempt: u32,
    max_attempts: u32,
    initial: Span,
    max: Span,
}

impl View for BackoffState {
    type V = BackoffV;

    closed spec fn view(&self) -> BackoffV {
        BackoffV {
            attempt: self.attempt as nat,
            max_attempts: self.max_attempts as nat,
            initial: self.initial@,
            max: self.max@,
        }
    }
}

impl BackoffState {
    #[verifier::type_invariant]
    closed spec fn attempts_bounded(self) -> bool {
        self.attempt <= self.max_attempts
    }

    /// A fresh sequence: 10 attempts, starting at 100 ms, capped at 10 s.
    pub fn new() -> (b: BackoffState)
        ensures
            b@.attempt == 0,
            b@.max_attempts == RECONNECT_MAX_ATTEMPTS,
            b@.initial == reconnect_initial_nanos(),
            b@.max == reconnect_max_nanos(),
    {
        BackoffState {
            attempt: 0,
            max_attempts: RECONNECT_MAX_ATTEMPTS,
            initial: reconnect_initial(),
            max: reconnect_max(),
        }
    }

    /// The delay before the next attempt, consuming it; `None` once every
    /// attempt is used.
    pub fn next_delay(&mut self) -> (r: Option<Span>)
        ensures
            final(self)@.max_attempts == old(self)@.max_attempts,
            final(self)@.initial == old(self)@.initial,
            final(self)@.max == old(self)@.max,
            final(self)@.attempt <= final(self)@.max_attempts,
            old(self)@.attempt >= old(self)@.max_attempts ==> r is None && final(self)@ == old(
                self,
            )@,
            old(self)@.attempt < old(self)@.max_attempts ==> (r matches Some(d) && d@ == delay_for(
                old(self)@.attempt,
                old(self)@.initial,
                old(self)@.max,
            ) && final(self)@.attempt == old(self)@.attempt + 1),
    {
        proof {
            use_type_invariant(&*self);
        }
        if self.attempt >= self.max_attempts {
            return None;
        }
        let k: u32 = if self.attempt < 16 {
            self.attempt
        } else {
            16
        };
        proof {
            vstd::bits::lemma_u32_pow2_no_overflow(k as nat);
            vstd::bits::lemma_u32_shl_is_mul(1, k);
        }
        let multiplier: u32 = 1u32 << k;
        let raw = self.initial.saturating_mul(multiplier);
        let delay = if raw.longer_than(&self.max) {
            self.max
        } else {
            raw
        };
        self.attempt = self.attempt + 1;
        Some(delay)
    }

    /// Attempts consumed so far.
    pub fn attempts_used(&self) -> (r: u32)
        ensures
            r == self@.attempt,
    {
        self.attempt
    }
}

/// Under the default schedule, each delay doubles the previous one until it
/// reaches the 10 s cap, and stays there.
pub proof fn backoff_doubles_up_to_cap(attempt: nat)
    requires
        attempt < 16,
    ensures
        delay_for(attempt + 1, reconnect_initial_nanos(), reconnect_max_nanos()) == (if 2
            * delay_for(attempt, reconnect_initial_nanos(), reconnect_max_nanos())
            > reconnect_max_nanos() {
            reconnect_max_nanos()
        } else {
            2 * delay_for(attempt, reconnect_initial_nanos(), reconnect_max_nanos())
        }),
        delay_for(attempt, reconnect_initial_nanos(), reconnect_max_nanos())
            <= reconnect_max_nanos(),
{
    lemma_pow2_adds(attempt, 1);
    lemma2_to64();
    lemma_pow2_bounded(attempt + 1);
    assert(pow2(attempt + 1) == pow2(attempt) * 2);
}

proof fn lemma_pow2_bounded(k: nat)
    requires
        k <= 16,
    ensures
        pow2(k) <= 65536,
        k > 0 ==> pow2((k - 1) as nat) <= 32768,
{
    lemma2_to64();
    if k < 16 {
        vstd::arithmetic::power2::lemma_pow2_strictly_increases(k, 16);
    }
    if k > 0 && k - 1 < 15 {
        vstd::arithmetic::power2::lemma_pow2_strictly_increases((k - 1) as nat, 15);
    }
}

/// The default schedule: attempt `k` waits `min(100 ms * 2^k, 10 s)`, for
/// every attempt the sequence allows.
pub proof fn backoff_default_schedule(k: nat)
    requires
        k < RECONNECT_MAX_ATTEMPTS,
    ensures
        delay_for(k, reconnect_initial_nanos(), reconnect_max_nanos()) == (if 100_000_000
            * pow2(k) > 10_000_000_000nat {
            10_000_000_000nat
        } else {
            100_000_000 * pow2(k)
        }),
{
    lemma_pow2_bounded(k);
}

}
