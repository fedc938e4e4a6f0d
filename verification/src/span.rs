//! Lengths of time, held as whole nanoseconds with the range of
//! `std::time::Duration` (at most `u64::MAX` seconds plus 999 999 999 ns).
use vstd::prelude::*;

verus! {

pub open spec fn nanos_per_sec() -> nat {
    1_000_000_000
}

/// Largest length a `Span` can hold, in nanoseconds.
pub open spec fn span_max_nanos() -> nat {
    u64::MAX as nat * nanos_per_sec() + 999_999_999
}

/// A length of time; its view is the number of nanoseconds.
#[derive(Clone, Copy, Debug, PartialEq, Eq, Structural)]
pub struct Span {
    nanos: u128,
}

impl View for Span {
    type V = nat;

    closed spec fn view(&self) -> nat {
        self.nanos as nat
    }
}

/// The span of `secs` whole seconds.
pub closed spec fn span_of_secs(secs: nat) -> Span {
    Span { nanos: (secs * nanos_per_sec()) as u128 }
}

impl Span {
    #[verifier::type_invariant]
    closed spec fn in_range(self) -> bool {
        self.nanos <= span_max_nanos()
    }

    /// `Duration::ZERO`.
    pub fn zero() -> (r: Span)
        ensures
            r@ == 0,
    {
        Span { nanos: 0 }
    }

    /// `Duration::from_millis`.
    pub fn from_millis(ms: u64) -> (r: Span)
        ensures
            r@ == ms as nat * 1_000_000,
    {
        assert(ms as nat * 1_000_000 <= span_max_nanos()) by (nonlinear_arith)
            requires
                ms <= u64::MAX,
        ;
        Span { nanos: ms as u128 * 1_000_000 }
    }

    /// `Duration::from_secs`.
    pub fn from_secs(secs: u64) -> (r: Span)
        ensures
            r@ == secs as nat * nanos_per_sec(),
            r == span_of_secs(secs as nat),
    {
        assert(secs as nat * 1_000_000_000 <= span_max_nanos()) by (nonlinear_arith)
            requires
                secs <= u64::MAX,
        ;
        Span { nanos: secs as u128 * 1_000_000_000 }
    }

    /// `Duration::new` with a sub-second part below one second.
    pub fn from_parts(secs: u64, subsec_nanos: u32) -> (r: Span)
        requires
            subsec_nanos < 1_000_000_000,
        ensures
            r@ == secs as nat * nanos_per_sec() + subsec_nanos as nat,
    {
        assert(secs as nat * 1_000_000_000 + subsec_nanos as nat <= span_max_nanos())
            by (nonlinear_arith)
            requires
                secs <= u64::MAX,
                subsec_nanos < 1_000_000_000,
        ;
        Span { nanos: secs as u128 * 1_000_000_000 + subsec_nanos as u128 }
    }

    /// Whole seconds (`Duration::as_secs`).
    pub fn as_secs(&self) -> (r: u64)
        ensures
            r as nat == self@ / nanos_per_sec(),
    {
        proof {
            use_type_invariant(*self);
        }
        assert(self.nanos / 1_000_000_000 <= u64::MAX) by (nonlinear_arith)
            requires
                self.nanos <= span_max_nanos(),
        ;
        (self.nanos / 1_000_000_000) as u64
    }

    /// Nanoseconds beyond the whole seconds (`Duration::subsec_nanos`).
    pub fn subsec_nanos(&self) -> (r: u32)
        ensures
            r as nat == self@ % nanos_per_sec(),
            r < 1_000_000_000,
    {
        (self.nanos % 1_000_000_000) as u32
    }

    /// Whole milliseconds (`Duration::as_millis`).
    pub fn as_millis(&self) -> (r: u128)
        ensures
            r as nat == self@ / 1_000_000,
    {
        self.nanos / 1_000_000
    }

    /// `self > other`.
    pub fn longer_than(&self, other: &Span) -> (r: bool)
        ensures
            r == (self@ > other@),
    {
        self.nanos > other.nanos
    }

    /// `Duration::saturating_mul`: the product, or the largest span when the
    /// product is out of range.
    pub fn saturating_mul(&self, k: u32) -> (r: Span)
        ensures
            r@ == (if self@ * (k as nat) <= span_max_nanos() {
                self@ * (k as nat)
            } else {
                span_max_nanos()
            }),
    {
        proof {
            use_type_invariant(*self);
        }
        let limit: u128 = 18_446_744_073_709_551_615u128 * 1_000_000_000u128 + 999_999_999u128;
        if k == 0 {
            return Span { nanos: 0 };
        }
        if self.nanos > limit / (k as u128) {
            assert(self.nanos * k > limit) by (nonlinear_arith)
                requires
                    self.nanos > limit / (k as u128),
                    k > 0,
            ;
            Span { nanos: limit }
        } else {
            assert(self.nanos * k <= limit) by (nonlinear_arith)
                requires
                    self.nanos <= limit / (k as u128),
                    k > 0,
            ;
            Span { nanos: self.nanos * (k as u128) }
        }
    }
}


}
