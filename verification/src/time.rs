use vstd::prelude::*;

verus! {

/// Nanoseconds in one second.
pub const NANOS_PER_SEC: u32 = 1_000_000_000;

/// A non-negative span of time: whole seconds and additional nanoseconds.
///
/// How long a span is, is `total_nanos`. The nanoseconds may make up a second
/// or more, so two values of the same length may differ in their fields, and
/// are then different values: `==` compares the fields.
#[derive(Clone, Copy, Debug, PartialEq, Eq, Structural)]
pub struct TimeSpan {
    pub secs: u64,
    pub nanos: u32,
}

impl TimeSpan {
    /// The length of the span in nanoseconds.
    pub open spec fn total_nanos(self) -> nat {
        (self.secs as nat) * (NANOS_PER_SEC as nat) + (self.nanos as nat)
    }

    /// The span of `secs` seconds and `nanos` nanoseconds.
    pub fn new(secs: u64, nanos: u32) -> (span: TimeSpan)
        ensures
            span.secs == secs,
            span.nanos == nanos,
    {
        TimeSpan { secs, nanos }
    }

    /// The span of `secs` whole seconds.
    pub fn from_secs(secs: u64) -> (span: TimeSpan)
        ensures
            span.secs == secs,
            span.nanos == 0,
            span.total_nanos() == secs as nat * NANOS_PER_SEC as nat,
    {
        TimeSpan { secs, nanos: 0 }
    }

    /// The empty span.
    pub fn zero() -> (span: TimeSpan)
        ensures
            span.secs == 0,
            span.nanos == 0,
            span.total_nanos() == 0,
    {
        TimeSpan { secs: 0, nanos: 0 }
    }

    /// The length of the span in nanoseconds, as a machine integer.
    pub fn as_nanos(&self) -> (total: u128)
        ensures
            total == self.total_nanos(),
    {
        let secs: u128 = self.secs as u128;
        let nanos: u128 = self.nanos as u128;
        assert(secs * 1_000_000_000 <= 0xffff_ffff_ffff_ffff * 1_000_000_000) by (nonlinear_arith)
            requires
                secs <= 0xffff_ffff_ffff_ffff,
        ;
        secs * 1_000_000_000 + nanos
    }

    /// What is left of `self` once `elapsed` has passed: the difference of the
    /// two spans in nanoseconds, and nothing once `elapsed` is the longer.
    pub fn remaining_after(&self, elapsed: &TimeSpan) -> (left: u128)
        ensures
            self.total_nanos() >= elapsed.total_nanos() ==> left == self.total_nanos()
                - elapsed.total_nanos(),
            self.total_nanos() < elapsed.total_nanos() ==> left == 0,
    {
        let whole: u128 = self.as_nanos();
        let gone: u128 = elapsed.as_nanos();
        if whole >= gone {
            whole - gone
        } else {
            0
        }
    }
}

} // verus!
