use vstd::prelude::*;

verus! {

/// A length of time, counted in nanoseconds.
#[derive(Debug, Clone, Copy, PartialEq, Eq, Structural)]
pub struct Span {
    nanos: u128,
}

/// Nanoseconds in one millisecond.
pub const NANOS_PER_MILLI: u128 = 1_000_000;

/// Nanoseconds in one second.
pub const NANOS_PER_SEC: u128 = 1_000_000_000;

impl View for Span {
    type V = nat;

    closed spec fn view(&self) -> nat {
        self.nanos as nat
    }
}

impl Span {
    /// The span of `nanos` nanoseconds.
    pub fn from_nanos(nanos: u128) -> (r: Span)
        ensures
            r@ == nanos as nat,
    {
        Span { nanos }
    }

    /// The span of `millis` milliseconds.
    pub fn from_millis(millis: u64) -> (r: Span)
        ensures
            r@ == millis as nat * NANOS_PER_MILLI as nat,
    {
        assert(millis as nat * NANOS_PER_MILLI as nat <= u64::MAX as nat * NANOS_PER_MILLI as nat)
            by (nonlinear_arith);
        Span { nanos: millis as u128 * NANOS_PER_MILLI }
    }

    /// The span of `secs` seconds.
    pub fn from_secs(secs: u64) -> (r: Span)
        ensures
            r@ == secs as nat * NANOS_PER_SEC as nat,
    {
        assert(secs as nat * NANOS_PER_SEC as nat <= u64::MAX as nat * NANOS_PER_SEC as nat)
            by (nonlinear_arith);
        Span { nanos: secs as u128 * NANOS_PER_SEC }
    }

    /// The number of whole nanoseconds in this span.
    pub fn as_nanos(&self) -> (r: u128)
        ensures
            r as nat == self@,
    {
        self.nanos
    }
}

/// A point in time, counted in nanoseconds from a fixed origin of the caller's choosing.
#[derive(Debug, Clone, Copy, PartialEq, Eq, Structural)]
pub struct Moment {
    nanos: u128,
}

impl View for Moment {
    type V = nat;

    closed spec fn view(&self) -> nat {
        self.nanos as nat
    }
}

/// The time from `earlier` to `later`, or zero when `later` comes first.
pub open spec fn span_between(earlier: nat, later: nat) -> nat {
    if earlier <= later {
        (later - earlier) as nat
    } else {
        0
    }
}

impl Moment {
    /// The moment `nanos` nanoseconds after the origin.
    pub fn from_nanos(nanos: u128) -> (r: Moment)
        ensures
            r@ == nanos as nat,
    {
        Moment { nanos }
    }

    /// The number of nanoseconds from the origin to this moment.
    pub fn as_nanos(&self) -> (r: u128)
        ensures
            r as nat == self@,
    {
        self.nanos
    }

    /// The time that has passed from `earlier` to this moment; zero if `earlier` is later.
    pub fn duration_since(&self, earlier: &Moment) -> (r: Span)
        ensures
            r@ == span_between(earlier@, self@),
    {
        if earlier.nanos <= self.nanos {
            Span::from_nanos(self.nanos - earlier.nanos)
        } else {
            Span::from_nanos(0)
        }
    }
}

} // verus!
