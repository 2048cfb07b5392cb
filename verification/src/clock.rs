//! Time as plain integers: instants are nanoseconds since the Unix epoch,
//! spans are signed nanoseconds, and setting lengths are whole seconds.
//! The `chrono` crate reads the clock and turns minutes into seconds.

use vstd::prelude::*;

verus! {

/// Every timestamp that `chrono` can represent lies strictly inside
/// ± this many seconds (its years stay within ±262 143).
pub const SECONDS_BOUND: i64 = 10_000_000_000_000;

/// Nanoseconds in a second.
pub const NANOS_PER_SEC: i128 = 1_000_000_000;

/// Every instant, in nanoseconds, lies strictly inside ± this bound.
pub const INSTANT_BOUND: i128 = 10_000_000_000_000_000_000_000;

/// The longest span `chrono` holds, either way: `i64::MAX` milliseconds,
/// in nanoseconds.
pub const MAX_SPAN: i128 = 9_223_372_036_854_775_807_000_000;

/// The largest number of minutes, either way, that `chrono` turns into a span
/// (its spans hold at most `i64::MAX / 1000` whole seconds).
pub const MAX_MINUTES: i64 = 153_722_867_280_912;

/// A nanosecond timestamp that stands for a `chrono` date and time.
pub open spec fn valid_instant(t: i128) -> bool {
    -INSTANT_BOUND < t < INSTANT_BOUND
}

/// A nanosecond span that `chrono` can hold.
pub open spec fn valid_span(d: i128) -> bool {
    -MAX_SPAN <= d <= MAX_SPAN
}

/// A number of minutes that `chrono` turns into a span without panicking.
pub open spec fn valid_minutes(m: i64) -> bool {
    -MAX_MINUTES <= m <= MAX_MINUTES
}

/// Whole seconds in a span of `ns` nanoseconds, rounded toward zero.
pub open spec fn trunc_seconds(ns: int) -> int {
    if ns >= 0 {
        ns / (NANOS_PER_SEC as int)
    } else {
        -((-ns) / (NANOS_PER_SEC as int))
    }
}

/// The instant `secs` seconds and `nanos` nanoseconds after the epoch.
pub fn instant_from_parts(secs: i64, nanos: u32) -> (t: i128)
    requires
        -SECONDS_BOUND < secs < SECONDS_BOUND,
        nanos < NANOS_PER_SEC,
    ensures
        t == secs * NANOS_PER_SEC + nanos,
        valid_instant(t),
{
    (secs as i128) * NANOS_PER_SEC + (nanos as i128)
}

/// The span from `since` to `now`, in nanoseconds: what
/// `signed_duration_since` measures between two dates.
pub fn elapsed_nanos(now: i128, since: i128) -> (span: i128)
    requires
        valid_instant(now),
        valid_instant(since),
    ensures
        span == now - since,
        valid_span(span),
{
    now - since
}

/// The whole seconds of a span, rounded toward zero: what a span's
/// `num_seconds` reports.
pub fn span_whole_seconds(span: i128) -> (secs: i64)
    requires
        valid_span(span),
    ensures
        secs == trunc_seconds(span as int),
{
    if span >= 0 {
        let q: u128 = (span as u128) / 1_000_000_000u128;
        assert(q <= MAX_SPAN / NANOS_PER_SEC);
        q as i64
    } else {
        let q: u128 = ((0 - span) as u128) / 1_000_000_000u128;
        assert(q <= MAX_SPAN / NANOS_PER_SEC);
        0 - (q as i64)
    }
}

/// Reads the local clock through `chrono::Local::now` and returns its
/// timestamp as whole seconds (`DateTime::timestamp`) and the nanoseconds
/// past them (`DateTime::timestamp_subsec_nanos`).
///
/// Trusted: the value depends on the machine's clock. What is claimed is
/// that the seconds lie in the range of dates `chrono` represents and that
/// the nanoseconds, taken from the system time since the epoch, stay below
/// one second.
#[verifier::external_body]
pub(crate) fn local_now_parts() -> (parts: (i64, u32))
    ensures
        -SECONDS_BOUND < parts.0 < SECONDS_BOUND,
        parts.1 < NANOS_PER_SEC,
{
    let now = chrono::Local::now();
    (now.timestamp(), now.timestamp_subsec_nanos())
}

/// The current local instant, in nanoseconds since the epoch.
pub fn local_now_nanos() -> (t: i128)
    ensures
        valid_instant(t),
{
    let (secs, nanos) = local_now_parts();
    instant_from_parts(secs, nanos)
}

/// Builds `chrono::Duration::minutes(minutes)` and reads back
/// `num_seconds()`.
///
/// Trusted: `minutes` is checked-multiplied by 60 into whole seconds and no
/// fraction is added, so the span holds exactly `minutes * 60` seconds; it
/// panics only outside `valid_minutes`.
#[verifier::external_body]
pub(crate) fn minutes_to_seconds(minutes: i64) -> (secs: i64)
    requires
        valid_minutes(minutes),
    ensures
        secs == minutes * 60,
{
    chrono::Duration::minutes(minutes).num_seconds()
}

/// Rounding toward zero: a non-negative span holds its whole seconds and
/// less than one more; a negative span holds at most its (negative) whole
/// seconds and more than one fewer.
pub proof fn lemma_trunc_seconds_bounds(ns: int)
    ensures
        ns >= 0 ==> trunc_seconds(ns) >= 0 && trunc_seconds(ns) * NANOS_PER_SEC <= ns
            < trunc_seconds(ns) * NANOS_PER_SEC + NANOS_PER_SEC,
        ns < 0 ==> trunc_seconds(ns) <= 0 && trunc_seconds(ns) * NANOS_PER_SEC - NANOS_PER_SEC < ns
            <= trunc_seconds(ns) * NANOS_PER_SEC,
{
}

} // verus!
