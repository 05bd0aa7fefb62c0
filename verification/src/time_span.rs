use vstd::prelude::*;

verus! {

/// Number of nanoseconds in one second.
pub const NANOS_PER_SEC: u32 = 1_000_000_000;

/// Number of nanoseconds in one millisecond.
pub const NANOS_PER_MILLI: u32 = 1_000_000;

/// Number of milliseconds in one second.
pub const MILLIS_PER_SEC: u64 = 1_000;

/// A span of time with nanosecond precision: whole seconds plus a
/// sub-second part below one second, like `std::time::Duration`.
///
/// Its view is the total number of nanoseconds.
#[derive(Clone, Copy, Debug, PartialEq, Eq, Structural)]
pub struct TimeSpan {
    secs: u64,
    nanos: u32,
}

impl View for TimeSpan {
    type V = nat;

    closed spec fn view(&self) -> nat {
        (self.secs * NANOS_PER_SEC + self.nanos) as nat
    }
}

/// The whole milliseconds in `nanos` nanoseconds, wrapped to 64 bits: what
/// `as_millis() as u64` gives for a span of `nanos` nanoseconds.
pub open spec fn millis_u64_of(nanos: nat) -> u64 {
    ((nanos / (NANOS_PER_MILLI as nat)) % 0x1_0000_0000_0000_0000) as u64
}

impl TimeSpan {
    /// The span that `from_millis(ms)` builds.
    pub closed spec fn spec_from_millis(ms: u64) -> TimeSpan {
        TimeSpan { secs: ms / MILLIS_PER_SEC, nanos: ((ms % MILLIS_PER_SEC) * NANOS_PER_MILLI) as u32 }
    }

    /// The span that `from_millis(ms)` builds is `ms` milliseconds long.
    pub proof fn lemma_spec_from_millis(ms: u64)
        ensures
            Self::spec_from_millis(ms)@ == ms * NANOS_PER_MILLI,
    {
        let d = Self::spec_from_millis(ms);
        let secs = ms / MILLIS_PER_SEC;
        let sub = ms % MILLIS_PER_SEC;
        assert(d.nanos == sub * NANOS_PER_MILLI);
        assert(d@ == ms * NANOS_PER_MILLI) by (nonlinear_arith)
            requires
                d@ == secs * NANOS_PER_SEC + d.nanos,
                d.nanos == sub * NANOS_PER_MILLI,
                secs * MILLIS_PER_SEC + sub == ms,
                NANOS_PER_SEC == MILLIS_PER_SEC * NANOS_PER_MILLI,
        ;
    }

    #[verifier::type_invariant]
    spec fn inv(self) -> bool {
        self.nanos < NANOS_PER_SEC
    }

    /// The empty span.
    pub fn zero() -> (d: TimeSpan)
        ensures
            d@ == 0,
    {
        TimeSpan { secs: 0, nanos: 0 }
    }

    /// A span of `secs` seconds and `nanos` nanoseconds; nanoseconds beyond a
    /// second carry into the seconds, as `Duration::new` does (which panics
    /// when that carry overflows the seconds).
    pub fn new(secs: u64, nanos: u32) -> (d: TimeSpan)
        requires
            secs + nanos / NANOS_PER_SEC <= u64::MAX,
        ensures
            d@ == secs * NANOS_PER_SEC + nanos,
    {
        let carry = (nanos / NANOS_PER_SEC) as u64;
        let rest = nanos % NANOS_PER_SEC;
        assert(carry * NANOS_PER_SEC + rest == nanos);
        let d = TimeSpan { secs: secs + carry, nanos: rest };
        assert(d@ == secs * NANOS_PER_SEC + nanos) by (nonlinear_arith)
            requires
                d@ == (secs + carry) * NANOS_PER_SEC + rest,
                carry * NANOS_PER_SEC + rest == nanos,
        ;
        d
    }

    /// A span of `ms` milliseconds, as `Duration::from_millis`.
    pub fn from_millis(ms: u64) -> (d: TimeSpan)
        ensures
            d@ == ms * NANOS_PER_MILLI,
            d == Self::spec_from_millis(ms),
    {
        let secs = ms / MILLIS_PER_SEC;
        let sub = ms % MILLIS_PER_SEC;
        let nanos = (sub as u32) * NANOS_PER_MILLI;
        proof {
            Self::lemma_spec_from_millis(ms);
        }
        TimeSpan { secs, nanos }
    }

    /// The whole milliseconds in the span, as `Duration::as_millis`.
    pub fn as_millis(&self) -> (ms: u128)
        ensures
            ms == self@ / (NANOS_PER_MILLI as nat),
    {
        proof {
            use_type_invariant(self);
        }
        let ms = (self.secs as u128) * (MILLIS_PER_SEC as u128) + ((self.nanos / NANOS_PER_MILLI) as u128);
        assert(ms == self@ / (NANOS_PER_MILLI as nat)) by (nonlinear_arith)
            requires
                self@ == self.secs * NANOS_PER_SEC + self.nanos,
                ms == self.secs * MILLIS_PER_SEC + self.nanos / NANOS_PER_MILLI,
                self.nanos < NANOS_PER_SEC,
                NANOS_PER_SEC == MILLIS_PER_SEC * NANOS_PER_MILLI,
        ;
        ms
    }

    /// The whole milliseconds in the span, wrapped to 64 bits, as
    /// `as_millis() as u64` gives them.
    pub fn millis_u64(&self) -> (ms: u64)
        ensures
            ms == millis_u64_of(self@),
    {
        let full = self.as_millis();
        (full % 0x1_0000_0000_0000_0000u128) as u64
    }

    /// The whole seconds in the span, as `Duration::as_secs`.
    pub fn as_secs(&self) -> (s: u64)
        ensures
            s == self@ / (NANOS_PER_SEC as nat),
    {
        proof {
            use_type_invariant(self);
        }
        self.secs
    }

    /// The nanoseconds past the whole seconds, as `Duration::subsec_nanos`.
    pub fn subsec_nanos(&self) -> (n: u32)
        ensures
            n == self@ % (NANOS_PER_SEC as nat),
            n < NANOS_PER_SEC,
    {
        proof {
            use_type_invariant(self);
        }
        self.nanos
    }
}

} // verus!
