use vstd::prelude::*;

verus! {

/// Number of nanoseconds in one second.
pub const NANOS_PER_SEC: u32 = 1_000_000_000u32;

/// Span of time, with nanosecond precision.
///
/// This stands for `std::time::Duration` in the library's interfaces: its value is the whole
/// number of nanoseconds `self@`.
#[derive(Clone, Copy, PartialEq, Eq, Structural, Debug)]
pub struct Duration {
    secs: u64,
    nanos: u32,
}

impl View for Duration {
    type V = nat;

    closed spec fn view(&self) -> nat {
        (self.secs as nat) * 1_000_000_000 + (self.nanos as nat)
    }
}

impl Duration {
    #[verifier::type_invariant]
    closed spec fn wf(self) -> bool {
        self.nanos < NANOS_PER_SEC
    }

    /// Whole milliseconds of a span of nanoseconds.
    pub open spec fn spec_millis(nanos: nat) -> nat {
        nanos / 1_000_000
    }

    /// Creates duration from whole seconds.
    pub fn from_secs(secs: u64) -> (r: Duration)
        ensures
            r@ == secs as nat * 1_000_000_000,
    {
        Duration { secs, nanos: 0 }
    }

    /// Creates duration from milliseconds.
    pub fn from_millis(millis: u64) -> (r: Duration)
        ensures
            r@ == millis as nat * 1_000_000,
    {
        let secs = millis / 1000;
        let rem = millis % 1000;
        assert(rem < 1000);
        let nanos = (rem as u32) * 1_000_000u32;
        let r = Duration { secs, nanos };
        proof {
            let s = secs as nat;
            let m = millis as nat;
            let q = rem as nat;
            assert(m == s * 1000 + q);
            assert(s * 1_000_000_000 + q * 1_000_000 == (s * 1000 + q) * 1_000_000)
                by (nonlinear_arith);
        }
        r
    }

    /// Gets the whole number of milliseconds.
    pub fn as_millis(&self) -> (r: u128)
        ensures
            r == Self::spec_millis(self@),
    {
        proof {
            use_type_invariant(self);
        }
        let r = (self.secs as u128) * 1000u128 + (self.nanos / 1_000_000u32) as u128;
        proof {
            let s = self.secs as nat;
            let n = self.nanos as nat;
            assert(n < 1_000_000_000);
            assert((s * 1_000_000_000 + n) / 1_000_000 == s * 1000 + n / 1_000_000)
                by (nonlinear_arith)
                requires
                    n < 1_000_000_000,
            ;
        }
        r
    }

    /// Gets the whole number of seconds.
    pub fn as_secs(&self) -> (r: u64)
        ensures
            r == self@ / 1_000_000_000,
    {
        proof {
            use_type_invariant(self);
            let s = self.secs as nat;
            let n = self.nanos as nat;
            assert((s * 1_000_000_000 + n) / 1_000_000_000 == s) by (nonlinear_arith)
                requires
                    n < 1_000_000_000,
            ;
        }
        self.secs
    }

    /// Gets the fractional part in nanoseconds.
    pub fn subsec_nanos(&self) -> (r: u32)
        ensures
            r == self@ % 1_000_000_000,
    {
        proof {
            use_type_invariant(self);
            let s = self.secs as nat;
            let n = self.nanos as nat;
            assert((s * 1_000_000_000 + n) % 1_000_000_000 == n) by (nonlinear_arith)
                requires
                    n < 1_000_000_000,
            ;
        }
        self.nanos
    }
}

/// Milliseconds survive the trip through a duration: `from_millis(m).as_millis() == m`.
pub proof fn lemma_millis_roundtrip(m: u64)
    ensures
        Duration::spec_millis(m as nat * 1_000_000) == m as nat,
{
    assert((m as nat * 1_000_000) / 1_000_000 == m as nat) by (nonlinear_arith);
}

} // verus!
