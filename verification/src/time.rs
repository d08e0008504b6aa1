//! Points in time and spans of time as plain integers.

use vstd::prelude::*;

verus! {

/// Number of nanoseconds in one second.
pub const NANOS_PER_SEC: u32 = 1_000_000_000;

/// A span of time: whole seconds plus a sub-second part in nanoseconds.
#[derive(Clone, Copy, Debug, PartialEq, Eq)]
pub struct TimeSpan {
    pub secs: u64,
    pub nanos: u32,
}

impl TimeSpan {
    /// The span is well formed when its sub-second part is under one second.
    pub open spec fn wf(self) -> bool {
        self.nanos < NANOS_PER_SEC
    }

    /// The length of the span in nanoseconds.
    pub open spec fn total_nanos(self) -> int {
        self.secs * NANOS_PER_SEC + self.nanos
    }

    /// A span of whole seconds.
    pub fn from_secs(secs: u64) -> (r: TimeSpan)
        ensures
            r.wf(),
            r.secs == secs,
            r.nanos == 0,
    {
        TimeSpan { secs, nanos: 0 }
    }

    /// A span of whole milliseconds.
    pub fn from_millis(millis: u64) -> (r: TimeSpan)
        ensures
            r.wf(),
            r.total_nanos() == millis * 1_000_000,
    {
        let secs: u64 = millis / 1000;
        let rem: u64 = millis % 1000;
        assert(rem * 1_000_000 < 1_000_000_000);
        let nanos: u32 = (rem * 1_000_000) as u32;
        assert(secs * 1_000_000_000 + rem * 1_000_000 == millis * 1_000_000) by (nonlinear_arith)
            requires secs == millis / 1000, rem == millis % 1000;
        TimeSpan { secs, nanos }
    }

    /// Whether the span is empty.
    pub fn is_zero(&self) -> (r: bool)
        ensures
            r == (self.total_nanos() == 0),
    {
        self.secs == 0 && self.nanos == 0
    }
}

/// A point in time: signed whole seconds since the Unix epoch plus a
/// sub-second part that always moves the point later.
#[derive(Clone, Copy, Debug, PartialEq, Eq)]
pub struct Timestamp {
    pub secs: i64,
    pub nanos: u32,
}

impl Timestamp {
    /// The point is well formed when its sub-second part is under one second.
    pub open spec fn wf(self) -> bool {
        self.nanos < NANOS_PER_SEC
    }

    /// Nanoseconds since the Unix epoch (negative before it).
    pub open spec fn epoch_nanos(self) -> int {
        self.secs * NANOS_PER_SEC + self.nanos
    }

    /// Whether `self` is at or before `other`: seconds first, then the sub-second part.
    pub open spec fn spec_le(self, other: Timestamp) -> bool {
        self.secs < other.secs || (self.secs == other.secs && self.nanos <= other.nanos)
    }

    /// Whether `self` is at or before `other`.
    pub fn is_at_or_before(&self, other: &Timestamp) -> (r: bool)
        ensures
            r == self.spec_le(*other),
    {
        self.secs < other.secs || (self.secs == other.secs && self.nanos <= other.nanos)
    }
}

/// On well-formed points, the order of `is_at_or_before` is the order of the
/// nanoseconds that the points stand for.
pub proof fn lemma_le_is_nanos_order(a: Timestamp, b: Timestamp)
    requires
        a.wf(),
        b.wf(),
    ensures
        a.spec_le(b) <==> a.epoch_nanos() <= b.epoch_nanos(),
{
    if a.secs < b.secs {
        assert(a.secs * 1_000_000_000 + 1_000_000_000 <= b.secs * 1_000_000_000) by (nonlinear_arith)
            requires a.secs < b.secs;
    } else if a.secs > b.secs {
        assert(b.secs * 1_000_000_000 + 1_000_000_000 <= a.secs * 1_000_000_000) by (nonlinear_arith)
            requires a.secs > b.secs;
    }
}

#[verifier::external_type_specification]
#[verifier::external_body]
pub struct ExSystemTime(std::time::SystemTime);

/// Reads the machine's clock with `std::time::SystemTime::now`.
///
/// Nothing is stated of the result: it is whatever the clock says.
#[verifier::external_body]
fn system_now() -> std::time::SystemTime {
    std::time::SystemTime::now()
}

/// The point in time that `aws_smithy_types::DateTime::from` gives for a
/// `SystemTime`, as seconds and sub-second nanoseconds since the epoch.
pub uninterp spec fn spec_timestamp_of(time: std::time::SystemTime) -> Timestamp;

/// Converts a `SystemTime` into a [`Timestamp`] through
/// `aws_smithy_types::DateTime::from`, reading back its `secs` and
/// `subsec_nanos`.
///
/// The result is named [`spec_timestamp_of`]: it depends on the time alone.
/// The source of `DateTime::from` builds its value either with
/// `from_secs_and_nanos`, which refuses a sub-second part of a second or
/// more, or from a remainder modulo one second, so the result is well formed.
/// `DateTime::from` panics only on a time more than `i64::MAX` seconds away
/// from the epoch, which a `SystemTime` of this platform cannot hold.
#[verifier::external_body]
fn timestamp_of(time: std::time::SystemTime) -> (r: Timestamp)
    ensures
        r == spec_timestamp_of(time),
        r.wf(),
{
    let date_time = aws_smithy_types::DateTime::from(time);
    Timestamp { secs: date_time.secs(), nanos: date_time.subsec_nanos() }
}

/// The point in time that a `SystemTime` stands for.
pub fn timestamp_from_system_time(time: std::time::SystemTime) -> (r: Timestamp)
    ensures
        r == spec_timestamp_of(time),
        r.wf(),
{
    timestamp_of(time)
}

/// The current time of the machine's clock: the point in time of a
/// `SystemTime` that the clock gave.
pub fn now() -> (r: Timestamp)
    ensures
        r.wf(),
        exists|t: std::time::SystemTime| r == #[trigger] spec_timestamp_of(t),
{
    let t = system_now();
    let r = timestamp_of(t);
    assert(r == spec_timestamp_of(t));
    r
}

} // verus!
