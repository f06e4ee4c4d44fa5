use vstd::prelude::*;

verus! {

/// The largest span that `std::time::Duration` can represent, in nanoseconds.
pub const MAX_NANOS: u128 = 18_446_744_073_709_551_615_999_999_999u128;

/// Nanoseconds in one millisecond.
pub const NANOS_PER_MILLI: u128 = 1_000_000u128;

/// A non-negative length of time with nanosecond resolution, covering the
/// same range as `std::time::Duration`. Its view is the length in nanoseconds.
#[derive(Clone, Copy, Debug, PartialEq, Eq, Structural)]
pub struct Span {
    nanos: u128,
}

impl View for Span {
    type V = nat;

    closed spec fn view(&self) -> nat {
        self.nanos as nat
    }
}

impl Span {
    #[verifier::type_invariant]
    spec fn well_formed(self) -> bool {
        self.nanos <= MAX_NANOS
    }

    /// The empty span.
    pub fn zero() -> (s: Span)
        ensures
            s@ == 0,
    {
        Span { nanos: 0 }
    }

    pub fn from_nanos(nanos: u128) -> (s: Span)
        requires
            nanos <= MAX_NANOS,
        ensures
            s@ == nanos,
    {
        Span { nanos }
    }

    pub fn from_millis(millis: u64) -> (s: Span)
        ensures
            s@ == millis * NANOS_PER_MILLI,
    {
        assert(millis * NANOS_PER_MILLI <= MAX_NANOS) by (nonlinear_arith)
            requires
                millis <= u64::MAX,
        ;
        Span { nanos: millis as u128 * NANOS_PER_MILLI }
    }

    pub fn as_nanos(&self) -> (n: u128)
        ensures
            n == self@,
            n <= MAX_NANOS,
    {
        proof {
            use_type_invariant(self);
        }
        self.nanos
    }

    pub fn is_zero(&self) -> (b: bool)
        ensures
            b == (self@ == 0),
    {
        self.nanos == 0
    }

    pub fn equals(&self, other: &Span) -> (b: bool)
        ensures
            b == (self@ == other@),
    {
        self.nanos == other.nanos
    }

    pub fn le(&self, other: &Span) -> (b: bool)
        ensures
            b == (self@ <= other@),
    {
        self.nanos <= other.nanos
    }

    pub fn lt(&self, other: &Span) -> (b: bool)
        ensures
            b == (self@ < other@),
    {
        self.nanos < other.nanos
    }

    /// The sum of two spans; the caller keeps it within the representable range,
    /// as adding `Duration`s past it panics.
    pub fn add(&self, other: &Span) -> (s: Span)
        requires
            self@ + other@ <= MAX_NANOS,
        ensures
            s@ == self@ + other@,
    {
        Span { nanos: self.nanos + other.nanos }
    }

    /// `self - other`, or `None` when `other` is longer.
    pub fn checked_sub(&self, other: &Span) -> (s: Option<Span>)
        ensures
            s is Some <==> other@ <= self@,
            s matches Some(d) ==> d@ == self@ - other@,
    {
        proof {
            use_type_invariant(self);
        }
        if other.nanos <= self.nanos {
            Some(Span { nanos: self.nanos - other.nanos })
        } else {
            None
        }
    }

    /// `self - other`, or the empty span when `other` is longer.
    pub fn saturating_sub(&self, other: &Span) -> (s: Span)
        ensures
            s@ == if other@ <= self@ { self@ - other@ } else { 0 },
    {
        proof {
            use_type_invariant(self);
        }
        if other.nanos <= self.nanos {
            Span { nanos: self.nanos - other.nanos }
        } else {
            Span { nanos: 0 }
        }
    }

    pub fn min(self, other: Span) -> (s: Span)
        ensures
            s@ == if self@ <= other@ { self@ } else { other@ },
    {
        if self.nanos <= other.nanos {
            self
        } else {
            other
        }
    }

    pub fn max(self, other: Span) -> (s: Span)
        ensures
            s@ == if other@ <= self@ { self@ } else { other@ },
    {
        if other.nanos <= self.nanos {
            self
        } else {
            other
        }
    }

    /// `self` brought into `[low, high]`; like `Ord::clamp`, it needs `low <= high`.
    pub fn clamp(self, low: Span, high: Span) -> (s: Span)
        requires
            low@ <= high@,
        ensures
            s@ == clamp_nat(self@, low@, high@),
    {
        if self.nanos < low.nanos {
            low
        } else if high.nanos < self.nanos {
            high
        } else {
            self
        }
    }
}

/// `x` brought into `[low, high]`.
pub open spec fn clamp_nat(x: nat, low: nat, high: nat) -> nat {
    if x < low {
        low
    } else if high < x {
        high
    } else {
        x
    }
}

} // verus!
