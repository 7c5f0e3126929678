use vstd::prelude::*;

verus! {

/// Nanoseconds in one second.
pub const NANOS_PER_SEC: u32 = 1_000_000_000;

/// A span of time: whole seconds plus the nanoseconds below one second.
#[derive(Clone, Copy, Debug)]
pub struct Duration {
    secs: u64,
    nanos: u32,
}

impl Duration {
    #[verifier::type_invariant]
    spec fn inv(self) -> bool {
        self.nanos < NANOS_PER_SEC
    }

    /// The whole seconds of the span.
    pub closed spec fn spec_secs(self) -> nat {
        self.secs as nat
    }

    /// The nanoseconds below one second.
    pub closed spec fn spec_subsec_nanos(self) -> nat {
        self.nanos as nat
    }

    /// The whole span in nanoseconds.
    pub open spec fn total_nanos(self) -> nat {
        self.spec_secs() * 1_000_000_000 + self.spec_subsec_nanos()
    }

    /// A span of `secs` seconds and `subsec_nanos` nanoseconds.
    pub fn new(secs: u64, subsec_nanos: u32) -> (r: Duration)
        requires
            subsec_nanos < NANOS_PER_SEC,
        ensures
            r.spec_secs() == secs,
            r.spec_subsec_nanos() == subsec_nanos,
    {
        Duration { secs, nanos: subsec_nanos }
    }

    pub fn from_secs(secs: u64) -> (r: Duration)
        ensures
            r.total_nanos() == secs * 1_000_000_000,
    {
        Duration { secs, nanos: 0 }
    }

    pub fn from_millis(millis: u64) -> (r: Duration)
        ensures
            r.total_nanos() == millis * 1_000_000,
    {
        let secs = millis / 1000;
        let nanos = ((millis % 1000) as u32) * 1_000_000;
        Duration { secs, nanos }
    }

    pub fn from_micros(micros: u64) -> (r: Duration)
        ensures
            r.total_nanos() == micros * 1_000,
    {
        let secs = micros / 1_000_000;
        let nanos = ((micros % 1_000_000) as u32) * 1_000;
        Duration { secs, nanos }
    }

    pub fn from_nanos(nanos: u64) -> (r: Duration)
        ensures
            r.total_nanos() == nanos,
    {
        let secs = nanos / 1_000_000_000;
        let sub = (nanos % 1_000_000_000) as u32;
        Duration { secs, nanos: sub }
    }

    pub fn as_secs(&self) -> (r: u64)
        ensures
            r == self.total_nanos() / 1_000_000_000,
    {
        proof { use_type_invariant(self); }
        self.secs
    }

    pub fn subsec_nanos(&self) -> (r: u32)
        ensures
            r == self.spec_subsec_nanos(),
            r < NANOS_PER_SEC,
    {
        proof { use_type_invariant(self); }
        self.nanos
    }

    /// Whole milliseconds in the span, the remainder dropped.
    pub fn as_millis(&self) -> (r: u128)
        ensures
            r == self.total_nanos() / 1_000_000,
    {
        proof { use_type_invariant(self); }
        let r = (self.secs as u128) * 1000 + ((self.nanos / 1_000_000) as u128);
        proof {
            let s = self.secs as int;
            let n = self.nanos as int;
            assert(s * 1_000_000_000 + n == (s * 1000 + n / 1_000_000) * 1_000_000 + n % 1_000_000)
                by (nonlinear_arith)
                requires 0 <= n;
            assert((s * 1_000_000_000 + n) / 1_000_000 == s * 1000 + n / 1_000_000)
                by (nonlinear_arith)
                requires 0 <= n, s >= 0,
                    s * 1_000_000_000 + n == (s * 1000 + n / 1_000_000) * 1_000_000 + n % 1_000_000;
        }
        r
    }

    /// Whole microseconds in the span, the remainder dropped.
    pub fn as_micros(&self) -> (r: u128)
        ensures
            r == self.total_nanos() / 1_000,
    {
        proof { use_type_invariant(self); }
        let r = (self.secs as u128) * 1_000_000 + ((self.nanos / 1000) as u128);
        proof {
            let s = self.secs as int;
            let n = self.nanos as int;
            assert(s * 1_000_000_000 + n == (s * 1_000_000 + n / 1000) * 1000 + n % 1000)
                by (nonlinear_arith)
                requires 0 <= n;
            assert((s * 1_000_000_000 + n) / 1000 == s * 1_000_000 + n / 1000)
                by (nonlinear_arith)
                requires 0 <= n, s >= 0,
                    s * 1_000_000_000 + n == (s * 1_000_000 + n / 1000) * 1000 + n % 1000;
        }
        r
    }

    /// `self - other`, or `None` where `other` is the longer span.
    pub fn checked_sub(&self, other: &Duration) -> (r: Option<Duration>)
        ensures
            match r {
                Some(d) => self.total_nanos() >= other.total_nanos()
                    && d.total_nanos() == self.total_nanos() - other.total_nanos(),
                None => self.total_nanos() < other.total_nanos(),
            },
    {
        proof {
            use_type_invariant(self);
            use_type_invariant(other);
        }
        if self.secs < other.secs {
            None
        } else if self.nanos >= other.nanos {
            Some(Duration { secs: self.secs - other.secs, nanos: self.nanos - other.nanos })
        } else if self.secs > other.secs {
            Some(Duration {
                secs: self.secs - other.secs - 1,
                nanos: self.nanos + NANOS_PER_SEC - other.nanos,
            })
        } else {
            None
        }
    }
}

} // verus!
