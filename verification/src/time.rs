//! Time as plain integers: nanoseconds on the worker's monotonic clock.

use vstd::prelude::*;

verus! {

/// Nanoseconds in one millisecond.
pub const NANOS_PER_MILLI: u64 = 1_000_000;

/// Nanoseconds in one second.
pub const NANOS_PER_SEC: u64 = 1_000_000_000;

/// A length of time in nanoseconds.
#[derive(Clone, Copy, Debug, PartialEq, Eq, Structural, PartialOrd, Ord, Hash)]
pub struct Span(pub u64);

/// A point on the worker's monotonic clock: nanoseconds since its epoch.
#[derive(Clone, Copy, Debug, PartialEq, Eq, Structural, PartialOrd, Ord, Hash)]
pub struct Timestamp(pub u64);

/// The sum of two lengths of time, held at the largest representable length.
pub open spec fn saturating_sum(a: nat, b: nat) -> nat {
    if a + b > u64::MAX {
        u64::MAX as nat
    } else {
        a + b
    }
}

impl View for Span {
    type V = nat;

    open spec fn view(&self) -> nat {
        self.0 as nat
    }
}

impl View for Timestamp {
    type V = nat;

    open spec fn view(&self) -> nat {
        self.0 as nat
    }
}

impl Span {
    /// The empty length of time.
    pub fn zero() -> (r: Span)
        ensures
            r@ == 0,
    {
        Span(0)
    }

    /// A length of `nanos` nanoseconds.
    pub fn from_nanos(nanos: u64) -> (r: Span)
        ensures
            r@ == nanos,
    {
        Span(nanos)
    }

    /// A length of `millis` milliseconds, held at the largest representable
    /// length.
    pub fn from_millis(millis: u64) -> (r: Span)
        ensures
            r@ == saturating_sum(millis as nat * NANOS_PER_MILLI as nat, 0),
    {
        if millis > u64::MAX / NANOS_PER_MILLI {
            assert(millis as nat * NANOS_PER_MILLI as nat > u64::MAX) by (nonlinear_arith)
                requires
                    millis > u64::MAX / NANOS_PER_MILLI,
                    NANOS_PER_MILLI == 1_000_000,
            ;
            Span(u64::MAX)
        } else {
            assert(millis as nat * NANOS_PER_MILLI as nat <= u64::MAX) by (nonlinear_arith)
                requires
                    millis <= u64::MAX / NANOS_PER_MILLI,
                    NANOS_PER_MILLI == 1_000_000,
            ;
            Span(millis * NANOS_PER_MILLI)
        }
    }

    /// The length in nanoseconds.
    pub fn as_nanos(&self) -> (r: u64)
        ensures
            r == self@,
    {
        self.0
    }

    /// The sum of the two lengths, held at the largest representable length.
    pub fn saturating_add(self, other: Span) -> (r: Span)
        ensures
            r@ == saturating_sum(self@, other@),
    {
        if self.0 > u64::MAX - other.0 {
            Span(u64::MAX)
        } else {
            Span(self.0 + other.0)
        }
    }
}

impl Timestamp {
    /// The point `nanos` nanoseconds after the epoch.
    pub fn from_nanos(nanos: u64) -> (r: Timestamp)
        ensures
            r@ == nanos,
    {
        Timestamp(nanos)
    }

    /// Nanoseconds since the epoch.
    pub fn as_nanos(&self) -> (r: u64)
        ensures
            r == self@,
    {
        self.0
    }

    /// The point `span` after this one, held at the last representable point.
    pub fn saturating_add(self, span: Span) -> (r: Timestamp)
        ensures
            r@ == saturating_sum(self@, span@),
    {
        if self.0 > u64::MAX - span.0 {
            Timestamp(u64::MAX)
        } else {
            Timestamp(self.0 + span.0)
        }
    }

    /// The time from `earlier` to this point, zero if `earlier` is not
    /// earlier.
    pub fn saturating_since(self, earlier: Timestamp) -> (r: Span)
        ensures
            r@ == if self@ >= earlier@ {
                self@ - earlier@
            } else {
                0
            },
    {
        if self.0 >= earlier.0 {
            Span(self.0 - earlier.0)
        } else {
            Span(0)
        }
    }

    /// Whether this point is not after `now`.
    pub fn has_passed(&self, now: Timestamp) -> (r: bool)
        ensures
            r == (self@ <= now@),
    {
        self.0 <= now.0
    }
}

/// A point on the monotonic clock of the machine.
#[verifier::external_type_specification]
#[verifier::external_body]
pub struct ExInstant(std::time::Instant);

/// Calls `std::time::Instant::now`, which reads the monotonic clock.
#[verifier::external_body]
pub(crate) fn instant_now() -> (r: std::time::Instant) {
    std::time::Instant::now()
}

/// The time from `earlier` to `later` as
/// `std::time::Instant::saturating_duration_since` gives it.
pub uninterp spec fn span_between(
    later: std::time::Instant,
    earlier: std::time::Instant,
) -> core::time::Duration;

/// The length of `d` in nanoseconds as `core::time::Duration::as_nanos`
/// gives it.
pub uninterp spec fn nanos_of(d: core::time::Duration) -> u128;

/// Calls `std::time::Instant::saturating_duration_since`, which gives the
/// time from `earlier` to `later`, or zero if `earlier` is the later one.
/// It depends on the two points alone.
#[verifier::external_body]
pub(crate) fn duration_between(later: &std::time::Instant, earlier: &std::time::Instant) -> (r:
    core::time::Duration)
    ensures
        r == span_between(*later, *earlier),
{
    later.saturating_duration_since(*earlier)
}

/// Calls `core::time::Duration::as_nanos`, which gives the whole length
/// in nanoseconds. It depends on the length alone.
#[verifier::external_body]
pub(crate) fn duration_as_nanos(d: &core::time::Duration) -> (r: u128)
    ensures
        r == nanos_of(*d),
{
    d.as_nanos()
}

/// The nanoseconds from `epoch` to `time`, as far as 64 bits hold them.
pub open spec fn nanos_between(time: std::time::Instant, epoch: std::time::Instant) -> u64 {
    low_nanos(nanos_of(span_between(time, epoch)))
}

/// The low 64 bits of a count of nanoseconds.
pub open spec fn low_nanos(nanos: u128) -> u64 {
    (nanos % 0x1_0000_0000_0000_0000) as u64
}

/// Returns the number of nanoseconds from `epoch` to `time`, zero if `time`
/// is before `epoch`. The count wraps around after 2^64 nanoseconds, which
/// is some 584 years.
pub fn nanos_since_epoch(epoch: &std::time::Instant, time: &std::time::Instant) -> (r: u64)
    ensures
        r == nanos_between(*time, *epoch),
{
    let d = duration_between(time, epoch);
    let nanos: u128 = duration_as_nanos(&d);
    truncate_nanos(nanos)
}

/// The low 64 bits of a count of nanoseconds.
pub fn truncate_nanos(nanos: u128) -> (r: u64)
    ensures
        r == low_nanos(nanos),
{
    (nanos % 0x1_0000_0000_0000_0000) as u64
}

/// Calls `Clone::clone` of `std::time::Instant`, which copies the point.
#[verifier::external_body]
pub(crate) fn copy_instant(time: &std::time::Instant) -> (r: std::time::Instant)
    ensures
        r == *time,
{
    time.clone()
}

/// The clock of a worker: it counts from the moment it was started.
pub struct Clock {
    epoch: std::time::Instant,
}

impl Clone for Clock {
    fn clone(&self) -> (r: Self)
        ensures
            r == *self,
    {
        Clock { epoch: copy_instant(&self.epoch) }
    }
}

impl Clock {
    /// The moment from which this clock counts.
    pub closed spec fn epoch(&self) -> std::time::Instant {
        self.epoch
    }

    /// A clock whose epoch is now.
    pub fn start() -> (r: Clock) {
        Clock { epoch: instant_now() }
    }

    /// A clock that counts from `epoch`.
    pub fn since(epoch: std::time::Instant) -> (r: Clock)
        ensures
            r.epoch() == epoch,
    {
        Clock { epoch }
    }

    /// The present point on this clock.
    pub fn now(&self) -> (r: Timestamp) {
        let t = instant_now();
        Timestamp(nanos_since_epoch(&self.epoch, &t))
    }

    /// The point on this clock at which the machine's clock showed `time`.
    pub fn at(&self, time: &std::time::Instant) -> (r: Timestamp)
        ensures
            r.0 == nanos_between(*time, self.epoch()),
    {
        Timestamp(nanos_since_epoch(&self.epoch, time))
    }
}

} // verus!
