//! A span of time measured in nanoseconds, with the range and the arithmetic
//! of `std::time::Duration`.
use vstd::prelude::*;

verus! {

/// Nanoseconds in one second.
pub const NANOS_PER_SEC: u128 = 1_000_000_000;

/// The largest number of nanoseconds a duration can hold:
/// `u64::MAX` seconds and 999 999 999 nanoseconds.
pub const MAX_NANOS: u128 = 18_446_744_073_709_551_615_999_999_999;

/// A span of time. Its value is a whole number of nanoseconds between zero and
/// [`MAX_NANOS`], as for `std::time::Duration`.
#[derive(Debug, Clone, Copy, PartialEq, Eq, Hash, Structural)]
pub struct Duration {
    nanos: u128,
}

impl View for Duration {
    type V = nat;

    /// The number of nanoseconds.
    closed spec fn view(&self) -> nat {
        self.nanos as nat
    }
}

impl Duration {
    #[verifier::type_invariant]
    closed spec fn in_range(self) -> bool {
        self.nanos <= MAX_NANOS
    }

    /// Two durations are equal exactly when they hold the same time.
    pub proof fn lemma_eq_iff_view(a: Duration, b: Duration)
        ensures
            (a == b) <==> (a@ == b@),
    {
    }

    /// The empty duration, as a value of specifications.
    pub closed spec fn spec_zero() -> Duration {
        Duration { nanos: 0 }
    }

    /// The empty duration holds no time.
    pub proof fn lemma_spec_zero()
        ensures
            Duration::spec_zero()@ == 0,
    {
    }

    /// The empty duration.
    pub fn zero() -> (r: Duration)
        ensures
            r@ == 0,
            r == Duration::spec_zero(),
    {
        Duration { nanos: 0 }
    }

    /// A duration of `nanos` nanoseconds.
    pub fn from_nanos(nanos: u64) -> (r: Duration)
        ensures
            r@ == nanos,
    {
        Duration { nanos: nanos as u128 }
    }

    /// A duration of `micros` microseconds.
    pub fn from_micros(micros: u64) -> (r: Duration)
        ensures
            r@ == micros * 1000,
    {
        Duration { nanos: micros as u128 * 1000 }
    }

    /// A duration of `millis` milliseconds.
    pub fn from_millis(millis: u64) -> (r: Duration)
        ensures
            r@ == millis * 1_000_000,
    {
        Duration { nanos: millis as u128 * 1_000_000 }
    }

    /// A duration of `secs` whole seconds.
    pub fn from_secs(secs: u64) -> (r: Duration)
        ensures
            r@ == secs * NANOS_PER_SEC,
    {
        Duration { nanos: secs as u128 * NANOS_PER_SEC }
    }

    /// A duration of `secs` seconds and `nanos` nanoseconds, where the
    /// nanoseconds may exceed one second and carry into the seconds.
    /// The total must stay within range, as `std::time::Duration::new` panics
    /// otherwise.
    pub fn new(secs: u64, nanos: u32) -> (r: Duration)
        requires
            secs * NANOS_PER_SEC + nanos <= MAX_NANOS,
        ensures
            r@ == secs * NANOS_PER_SEC + nanos,
    {
        Duration { nanos: secs as u128 * NANOS_PER_SEC + nanos as u128 }
    }

    /// The total number of nanoseconds.
    pub fn as_nanos(&self) -> (r: u128)
        ensures
            r == self@,
            r <= MAX_NANOS,
    {
        proof { use_type_invariant(self); }
        self.nanos
    }

    /// The number of whole seconds.
    pub fn as_secs(&self) -> (r: u64)
        ensures
            r == self@ / NANOS_PER_SEC as nat,
    {
        proof { use_type_invariant(self); }
        (self.nanos / NANOS_PER_SEC) as u64
    }

    /// The nanoseconds past the whole seconds.
    pub fn subsec_nanos(&self) -> (r: u32)
        ensures
            r == self@ % NANOS_PER_SEC as nat,
    {
        (self.nanos % NANOS_PER_SEC) as u32
    }

    /// The sum, or `None` where it would leave the range.
    pub fn checked_add(self, rhs: Duration) -> (r: Option<Duration>)
        ensures
            self@ + rhs@ <= MAX_NANOS ==> (r matches Some(d) && d@ == self@ + rhs@),
            self@ + rhs@ > MAX_NANOS ==> r is None,
    {
        proof { use_type_invariant(self); use_type_invariant(rhs); }
        let sum = self.nanos + rhs.nanos;
        if sum <= MAX_NANOS {
            Some(Duration { nanos: sum })
        } else {
            None
        }
    }
    /// The sum. `std::time::Duration`'s `+` panics where the sum leaves the
    /// range, so the sum must stay within it.
    pub fn add(self, rhs: Duration) -> (r: Duration)
        requires
            self@ + rhs@ <= MAX_NANOS,
        ensures
            r@ == self@ + rhs@,
    {
        Duration { nanos: self.nanos + rhs.nanos }
    }

    /// The difference. `std::time::Duration`'s `-` panics where `rhs` is the
    /// longer one, so it must not be.
    pub fn sub(self, rhs: Duration) -> (r: Duration)
        requires
            rhs@ <= self@,
        ensures
            r@ == self@ - rhs@,
    {
        proof { use_type_invariant(self); use_type_invariant(rhs); }
        Duration { nanos: self.nanos - rhs.nanos }
    }

    /// The difference, or `None` where `rhs` is the longer one.
    pub fn checked_sub(self, rhs: Duration) -> (r: Option<Duration>)
        ensures
            rhs@ <= self@ ==> (r matches Some(d) && d@ == self@ - rhs@),
            rhs@ > self@ ==> r is None,
    {
        proof { use_type_invariant(self); use_type_invariant(rhs); }
        if rhs.nanos <= self.nanos {
            Some(Duration { nanos: self.nanos - rhs.nanos })
        } else {
            None
        }
    }

    /// The difference, or zero where `rhs` is the longer one.
    pub fn saturating_sub(self, rhs: Duration) -> (r: Duration)
        ensures
            r@ == if rhs@ <= self@ { self@ - rhs@ } else { 0 },
    {
        proof { use_type_invariant(self); use_type_invariant(rhs); }
        if rhs.nanos <= self.nanos {
            Duration { nanos: self.nanos - rhs.nanos }
        } else {
            Duration { nanos: 0 }
        }
    }

    /// The shorter of the two.
    pub fn min(self, other: Duration) -> (r: Duration)
        ensures
            r@ == if self@ <= other@ { self@ } else { other@ },
    {
        if self.nanos <= other.nanos {
            self
        } else {
            other
        }
    }

    /// The longer of the two.
    pub fn max(self, other: Duration) -> (r: Duration)
        ensures
            r@ == if other@ <= self@ { self@ } else { other@ },
    {
        if other.nanos <= self.nanos {
            self
        } else {
            other
        }
    }

    /// Whether this duration is empty.
    pub fn is_zero(&self) -> (r: bool)
        ensures
            r == (self@ == 0),
    {
        self.nanos == 0
    }

    /// Whether `self` is strictly shorter than `other`.
    pub fn lt(&self, other: &Duration) -> (r: bool)
        ensures
            r == (self@ < other@),
    {
        self.nanos < other.nanos
    }

    /// Whether `self` is at most as long as `other`.
    pub fn le(&self, other: &Duration) -> (r: bool)
        ensures
            r == (self@ <= other@),
    {
        self.nanos <= other.nanos
    }

    /// Whether both hold the same time.
    pub fn eq(&self, other: &Duration) -> (r: bool)
        ensures
            r == (self@ == other@),
    {
        self.nanos == other.nanos
    }

    /// The remainder of `self` divided by the non-empty `modulus`.
    pub fn rem(self, modulus: Duration) -> (r: Duration)
        requires
            modulus@ > 0,
        ensures
            r@ == self@ % modulus@,
            r@ < modulus@,
    {
        proof { use_type_invariant(self); use_type_invariant(modulus); }
        Duration { nanos: self.nanos % modulus.nanos }
    }
}

impl Default for Duration {
    /// The empty duration.
    fn default() -> (r: Duration)
        ensures
            r == Duration::spec_zero(),
    {
        Duration::zero()
    }
}

} // verus!
