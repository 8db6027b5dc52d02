//! A span of time with nanosecond resolution.

use vstd::prelude::*;

verus! {

/// Nanoseconds in one second.
pub const NANOS_PER_SEC: u32 = 1_000_000_000;

/// A non-negative span of time: whole seconds and the nanoseconds beyond them.
///
/// The sub-second part always stays below one second, so every span has
/// exactly one representation and `==` compares lengths.
#[derive(Clone, Copy, Debug, PartialEq, Eq, Hash, Structural)]
pub struct Duration {
    secs: u64,
    nanos: u32,
}

/// The longest span a `Duration` can hold, in nanoseconds.
pub open spec fn max_nanos() -> nat {
    (u64::MAX as nat) * (NANOS_PER_SEC as nat) + (NANOS_PER_SEC as nat - 1) as nat
}

impl Duration {
    #[verifier::type_invariant]
    spec fn normalized(self) -> bool {
        self.nanos < NANOS_PER_SEC
    }

    /// The whole seconds of the span.
    pub closed spec fn secs(self) -> nat {
        self.secs as nat
    }

    /// The part of the span beyond its whole seconds, in nanoseconds.
    pub closed spec fn subsec(self) -> nat {
        self.nanos as nat
    }

    /// The length of the span in nanoseconds.
    pub open spec fn nanos(self) -> nat {
        self.secs() * (NANOS_PER_SEC as nat) + self.subsec()
    }

    /// The empty span.
    pub fn zero() -> (d: Duration)
        ensures
            d.nanos() == 0,
            d.secs() == 0,
            d.subsec() == 0,
    {
        Duration { secs: 0, nanos: 0 }
    }

    /// A span of `secs` seconds and `nanos` nanoseconds. Nanoseconds of a
    /// second or more carry into the seconds, which must have room for them.
    pub fn new(secs: u64, nanos: u32) -> (d: Duration)
        requires
            secs + nanos / NANOS_PER_SEC <= u64::MAX,
        ensures
            d.nanos() == secs as nat * (NANOS_PER_SEC as nat) + nanos as nat,
            d.secs() == secs + nanos / NANOS_PER_SEC,
            d.subsec() == nanos % NANOS_PER_SEC,
    {
        let carry: u32 = nanos / NANOS_PER_SEC;
        let rest: u32 = nanos % NANOS_PER_SEC;
        let whole: u64 = secs + carry as u64;
        assert(whole as nat * (NANOS_PER_SEC as nat) + rest as nat == secs as nat * (
        NANOS_PER_SEC as nat) + nanos as nat) by (nonlinear_arith)
            requires
                whole == secs + carry,
                carry == nanos / NANOS_PER_SEC,
                rest == nanos % NANOS_PER_SEC,
        ;
        Duration { secs: whole, nanos: rest }
    }

    /// A span of whole seconds.
    pub fn from_secs(secs: u64) -> (d: Duration)
        ensures
            d.nanos() == secs as nat * (NANOS_PER_SEC as nat),
            d.secs() == secs,
            d.subsec() == 0,
    {
        Duration { secs, nanos: 0 }
    }

    /// The whole seconds of the span.
    pub fn as_secs(&self) -> (s: u64)
        ensures
            s == self.secs(),
    {
        self.secs
    }

    /// The part of the span beyond its whole seconds, in nanoseconds.
    pub fn subsec_nanos(&self) -> (n: u32)
        ensures
            n == self.subsec(),
            n < NANOS_PER_SEC,
    {
        proof {
            use_type_invariant(self);
        }
        self.nanos
    }

    /// The sum of two spans, or `None` when it is longer than any `Duration`.
    pub fn checked_add(self, rhs: Duration) -> (sum: Option<Duration>)
        ensures
            sum is Some <==> self.nanos() + rhs.nanos() <= max_nanos(),
            sum is Some ==> sum->0.nanos() == self.nanos() + rhs.nanos(),
    {
        proof {
            use_type_invariant(self);
            use_type_invariant(rhs);
        }
        let mut sub: u32 = self.nanos + rhs.nanos;
        let mut carry: u64 = 0;
        if sub >= NANOS_PER_SEC {
            sub = sub - NANOS_PER_SEC;
            carry = 1;
        }
        let whole: Option<u64> = match self.secs.checked_add(rhs.secs) {
            Some(s) => s.checked_add(carry),
            None => None,
        };
        match whole {
            Some(s) => {
                assert(s as nat * (NANOS_PER_SEC as nat) + sub as nat == (self.secs as nat * (
                NANOS_PER_SEC as nat) + self.nanos as nat) + (rhs.secs as nat * (
                NANOS_PER_SEC as nat) + rhs.nanos as nat)) by (nonlinear_arith)
                    requires
                        s == self.secs + rhs.secs + carry,
                        sub + carry * NANOS_PER_SEC == self.nanos + rhs.nanos,
                ;
                assert(s as nat * (NANOS_PER_SEC as nat) + sub as nat <= (u64::MAX as nat) * (
                NANOS_PER_SEC as nat) + (NANOS_PER_SEC as nat - 1) as nat) by (nonlinear_arith)
                    requires
                        s <= u64::MAX,
                        sub < NANOS_PER_SEC,
                ;
                Some(Duration { secs: s, nanos: sub })
            },
            None => {
                assert((self.secs as nat * (NANOS_PER_SEC as nat) + self.nanos as nat) + (
                rhs.secs as nat * (NANOS_PER_SEC as nat) + rhs.nanos as nat) > (u64::MAX as nat)
                    * (NANOS_PER_SEC as nat) + (NANOS_PER_SEC as nat - 1) as nat)
                    by (nonlinear_arith)
                    requires
                        self.secs + rhs.secs + carry > u64::MAX,
                        sub + carry * NANOS_PER_SEC == self.nanos + rhs.nanos,
                        sub < NANOS_PER_SEC,
                ;
                None
            },
        }
    }

    /// The difference of two spans, or `None` when `rhs` is the longer one.
    pub fn checked_sub(self, rhs: Duration) -> (diff: Option<Duration>)
        ensures
            diff is Some <==> rhs.nanos() <= self.nanos(),
            diff is Some ==> diff->0.nanos() + rhs.nanos() == self.nanos(),
    {
        proof {
            use_type_invariant(self);
            use_type_invariant(rhs);
        }
        if self.secs < rhs.secs || (self.secs == rhs.secs && self.nanos < rhs.nanos) {
            assert(self.secs as nat * (NANOS_PER_SEC as nat) + (self.nanos as nat) < (
            rhs.secs as nat) * (NANOS_PER_SEC as nat) + rhs.nanos as nat) by (nonlinear_arith)
                requires
                    self.secs < rhs.secs || (self.secs == rhs.secs && self.nanos < rhs.nanos),
                    self.nanos < NANOS_PER_SEC,
                    rhs.nanos < NANOS_PER_SEC,
            ;
            None
        } else if self.nanos >= rhs.nanos {
            let s: u64 = self.secs - rhs.secs;
            let n: u32 = self.nanos - rhs.nanos;
            assert(s as nat * (NANOS_PER_SEC as nat) + n as nat + (rhs.secs as nat * (
            NANOS_PER_SEC as nat) + rhs.nanos as nat) == self.secs as nat * (
            NANOS_PER_SEC as nat) + self.nanos as nat) by (nonlinear_arith)
                requires
                    s == self.secs - rhs.secs,
                    n == self.nanos - rhs.nanos,
            ;
            Some(Duration { secs: s, nanos: n })
        } else {
            let s: u64 = self.secs - rhs.secs - 1;
            let n: u32 = self.nanos + NANOS_PER_SEC - rhs.nanos;
            assert(s as nat * (NANOS_PER_SEC as nat) + n as nat + (rhs.secs as nat * (
            NANOS_PER_SEC as nat) + rhs.nanos as nat) == self.secs as nat * (
            NANOS_PER_SEC as nat) + self.nanos as nat) by (nonlinear_arith)
                requires
                    s == self.secs - rhs.secs - 1,
                    n == self.nanos + NANOS_PER_SEC - rhs.nanos,
            ;
            Some(Duration { secs: s, nanos: n })
        }
    }
}

impl Default for Duration {
    fn default() -> (d: Duration)
        ensures
            d.nanos() == 0,
    {
        Duration::zero()
    }
}

} // verus!
