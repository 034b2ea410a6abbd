use vstd::prelude::*;

verus! {

/// Nanoseconds in one second.
pub const NANOS_PER_SEC: u32 = 1_000_000_000;

/// A span of time as whole seconds and the nanoseconds beyond them, the
/// same split a standard `Duration` uses.
#[derive(Clone, Copy, Debug, PartialEq, Eq, Structural)]
pub struct Elapsed {
    pub secs: u64,
    pub subsec_nanos: u32,
}

/// The largest span representable, in nanoseconds.
pub open spec fn max_nanos() -> int {
    ((u64::MAX as nat) + 1) * (NANOS_PER_SEC as nat) - 1
}

impl Elapsed {
    pub open spec fn wf(&self) -> bool {
        self.subsec_nanos < NANOS_PER_SEC
    }

    /// The span in nanoseconds.
    pub open spec fn nanos(&self) -> nat {
        (self.secs as nat) * (NANOS_PER_SEC as nat) + (self.subsec_nanos as nat)
    }

    /// The empty span.
    pub fn zero() -> (r: Elapsed)
        ensures
            r.wf(),
            r.nanos() == 0,
    {
        Elapsed { secs: 0, subsec_nanos: 0 }
    }

    /// A span from seconds and extra nanoseconds; `None` when the extra
    /// nanoseconds reach a full second.
    pub fn from_parts(secs: u64, subsec_nanos: u32) -> (r: Option<Elapsed>)
        ensures
            r.is_some() <==> subsec_nanos < NANOS_PER_SEC,
            r.is_some() ==> r.unwrap().wf() && r.unwrap().secs == secs
                && r.unwrap().subsec_nanos == subsec_nanos,
    {
        if subsec_nanos < NANOS_PER_SEC {
            Some(Elapsed { secs, subsec_nanos })
        } else {
            None
        }
    }

    /// A span of whole milliseconds.
    pub fn from_millis(millis: u64) -> (r: Elapsed)
        ensures
            r.wf(),
            r.nanos() == (millis as nat) * 1_000_000,
    {
        let secs: u64 = millis / 1000;
        let rest: u64 = millis % 1000;
        let subsec_nanos: u32 = (rest * 1_000_000) as u32;
        let r = Elapsed { secs, subsec_nanos };
        assert(r.nanos() == (millis as nat) * 1_000_000) by (nonlinear_arith)
            requires
                secs == millis / 1000,
                rest == millis % 1000,
                subsec_nanos == rest * 1_000_000,
                r.nanos() == (secs as nat) * 1_000_000_000 + (subsec_nanos as nat),
        ;
        r
    }

    /// The sum of two spans; `None` when it exceeds the largest span.
    pub fn checked_add(&self, other: &Elapsed) -> (r: Option<Elapsed>)
        requires
            self.wf(),
            other.wf(),
        ensures
            r.is_some() <==> self.nanos() + other.nanos() <= max_nanos(),
            r.is_some() ==> r.unwrap().wf() && r.unwrap().nanos() == self.nanos() + other.nanos(),
    {
        let nanos: u32 = self.subsec_nanos + other.subsec_nanos;
        let carry: u64 = if nanos >= NANOS_PER_SEC { 1 } else { 0 };
        let sub: u32 = if nanos >= NANOS_PER_SEC { nanos - NANOS_PER_SEC } else { nanos };
        assert(self.nanos() + other.nanos() == ((self.secs as nat) + (other.secs as nat) + (carry as nat))
            * (NANOS_PER_SEC as nat) + (sub as nat)) by (nonlinear_arith)
            requires
                self.nanos() == (self.secs as nat) * (NANOS_PER_SEC as nat) + (self.subsec_nanos as nat),
                other.nanos() == (other.secs as nat) * (NANOS_PER_SEC as nat) + (other.subsec_nanos as nat),
                (nanos as nat) + 0 == (self.subsec_nanos as nat) + (other.subsec_nanos as nat),
                (carry as nat) * (NANOS_PER_SEC as nat) + (sub as nat) == nanos as nat,
        ;
        match self.secs.checked_add(other.secs) {
            Some(s) => match s.checked_add(carry) {
                Some(secs) => Some(Elapsed { secs, subsec_nanos: sub }),
                None => {
                    assert(self.nanos() + other.nanos() > max_nanos()) by (nonlinear_arith)
                        requires
                            self.nanos() + other.nanos() == ((self.secs as nat) + (other.secs as nat)
                                + (carry as nat)) * (NANOS_PER_SEC as nat) + (sub as nat),
                            (self.secs as nat) + (other.secs as nat) + (carry as nat) > u64::MAX,
                    ;
                    None
                },
            },
            None => {
                assert(self.nanos() + other.nanos() > max_nanos()) by (nonlinear_arith)
                    requires
                        self.nanos() + other.nanos() == ((self.secs as nat) + (other.secs as nat)
                            + (carry as nat)) * (NANOS_PER_SEC as nat) + (sub as nat),
                        (self.secs as nat) + (other.secs as nat) > u64::MAX,
                ;
                None
            },
        }
    }
}

} // verus!
