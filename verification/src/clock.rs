use vstd::prelude::*;

verus! {

/// Nanoseconds in one second.
pub const NANOS_PER_SEC: u32 = 1_000_000_000;

/// Earliest whole second (Unix time) of the UTC calendar range that a
/// `chrono` date-time can hold: year -262143, January 1st.
pub const MIN_UNIX_SECS: i64 = -8_334_601_315_200;

/// Latest whole second (Unix time) of that range: year 262142, December
/// 31st, 23:59:59.
pub const MAX_UNIX_SECS: i64 = 8_210_266_876_799;

/// Largest whole number of seconds a `chrono::TimeDelta` built from seconds
/// alone may hold (`i64::MAX` milliseconds, rounded down to a second).
pub const MAX_DELTA_SECS: i64 = 9_223_372_036_854_775;

/// An instant on the UTC time line, as whole seconds since the Unix epoch
/// and the nanoseconds past that second.
#[derive(Clone, Copy, Debug, PartialEq, Eq, Structural)]
pub struct Timestamp {
    pub secs: i64,
    pub nanos: u32,
}

/// A signed span of time, kept as `chrono::TimeDelta` keeps it: whole seconds
/// rounded towards minus infinity, and the nanoseconds above them.
#[derive(Clone, Copy, Debug, PartialEq, Eq, Structural)]
pub struct TimeSpan {
    pub secs: i64,
    pub nanos: u32,
}

impl Timestamp {
    /// The instant lies in the calendar range and its nanoseconds are below
    /// one second (no leap-second representation).
    pub open spec fn wf(self) -> bool {
        &&& self.nanos < NANOS_PER_SEC
        &&& MIN_UNIX_SECS <= self.secs <= MAX_UNIX_SECS
    }

    /// The instant, in nanoseconds since the epoch.
    pub open spec fn total_nanos(self) -> int {
        self.secs * 1_000_000_000 + self.nanos
    }
}

impl TimeSpan {
    pub open spec fn wf(self) -> bool {
        self.nanos < NANOS_PER_SEC
    }

    /// The span, in nanoseconds.
    pub open spec fn total_nanos(self) -> int {
        self.secs * 1_000_000_000 + self.nanos
    }
}

/// The time from `start` to `now` (negative when `start` is later), as
/// `DateTime::signed_duration_since` gives it.
pub fn elapsed_since(now: Timestamp, start: Timestamp) -> (span: TimeSpan)
    requires
        now.wf(),
        start.wf(),
    ensures
        span.wf(),
        span.total_nanos() == now.total_nanos() - start.total_nanos(),
{
    let secs: i64 = now.secs - start.secs;
    if now.nanos >= start.nanos {
        TimeSpan { secs, nanos: now.nanos - start.nanos }
    } else {
        TimeSpan { secs: secs - 1, nanos: NANOS_PER_SEC - start.nanos + now.nanos }
    }
}

/// Whether a well-formed span is longer than the given number of seconds;
/// the order is that of `chrono::TimeDelta`, which compares seconds, then
/// nanoseconds.
pub fn span_exceeds(span: TimeSpan, limit_secs: i64) -> (r: bool)
    requires
        span.wf(),
    ensures
        r == (span.total_nanos() > limit_secs * 1_000_000_000),
{
    span.secs > limit_secs || (span.secs == limit_secs && span.nanos > 0)
}

/// The value `n as i64` takes in Rust: `n` itself when it fits, else `n`
/// minus 2^64.
pub open spec fn wrapped_i64(n: u64) -> int {
    if n <= i64::MAX {
        n as int
    } else {
        n - 0x1_0000_0000_0000_0000
    }
}

/// `n as i64`, written without a cast so that its value is known.
pub fn to_wrapped_i64(n: u64) -> (r: i64)
    ensures
        r == wrapped_i64(n),
{
    if n <= i64::MAX as u64 {
        n as i64
    } else {
        let below: u64 = u64::MAX - n;
        -(below as i64) - 1
    }
}

/// The instant `secs` whole seconds before `at`, as `DateTime - TimeDelta`
/// gives it for `TimeDelta::seconds(secs)`.
pub fn seconds_before(at: Timestamp, secs: i64) -> (r: Timestamp)
    requires
        at.wf(),
        -MAX_DELTA_SECS <= secs <= MAX_DELTA_SECS,
        MIN_UNIX_SECS <= at.secs - secs <= MAX_UNIX_SECS,
    ensures
        r.wf(),
        r.secs == at.secs - secs,
        r.nanos == at.nanos,
        r.total_nanos() == at.total_nanos() - secs * 1_000_000_000,
{
    Timestamp { secs: at.secs - secs, nanos: at.nanos }
}

/// Going back from `now` by the time elapsed since `start` lands on `start`.
pub proof fn law_elapsed_inverts(now: Timestamp, start: Timestamp, span: TimeSpan)
    requires
        now.wf(),
        start.wf(),
        span.wf(),
        span.total_nanos() == now.total_nanos() - start.total_nanos(),
    ensures
        start.total_nanos() + span.total_nanos() == now.total_nanos(),
        (span.total_nanos() > 0) == (start.total_nanos() < now.total_nanos()),
{
}

/// Reading a `u64` as an `i64` keeps its value modulo 2^64 and lands in the
/// `i64` range; values that fit are kept.
pub proof fn law_wrapped_i64(n: u64)
    ensures
        i64::MIN <= wrapped_i64(n) <= i64::MAX,
        wrapped_i64(n) == n || wrapped_i64(n) == n - 0x1_0000_0000_0000_0000,
        n <= i64::MAX ==> wrapped_i64(n) == n,
{
}

} // verus!
