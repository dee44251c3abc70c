//! Conversion of a `Duration` to whole milliseconds.
use std::time::Duration;
use vstd::prelude::*;

verus! {

/// Whole seconds of a duration, as `Duration::as_secs` reports them.
pub uninterp spec fn duration_secs(d: Duration) -> u64;

/// Fractional part of a duration in nanoseconds, as `Duration::subsec_nanos` reports it.
pub uninterp spec fn duration_subsec_nanos(d: Duration) -> u32;

/// `Duration::as_secs` returns the number of whole seconds of the duration.
pub assume_specification[ Duration::as_secs ](d: &Duration) -> (r: u64)
    ensures
        r == duration_secs(*d),
;

/// `Duration::subsec_nanos` returns the fractional part in nanoseconds, which the
/// documentation promises is always below one billion.
pub assume_specification[ Duration::subsec_nanos ](d: &Duration) -> (r: u32)
    ensures
        r == duration_subsec_nanos(*d),
        r < 1_000_000_000,
;

/// Milliseconds of a duration made of `secs` whole seconds and `nanos` nanoseconds.
pub open spec fn millis_of(secs: int, nanos: int) -> int {
    secs * 1000 + nanos / 1_000_000
}

/// Whole milliseconds of a duration: seconds times a thousand plus the whole
/// milliseconds of the fractional part.
pub fn to_millis(duration: Duration) -> (r: u64)
    requires
        millis_of(duration_secs(duration) as int, duration_subsec_nanos(duration) as int) <= u64::MAX,
    ensures
        r == millis_of(duration_secs(duration) as int, duration_subsec_nanos(duration) as int),
{
    let secs = duration.as_secs();
    let nanos = duration.subsec_nanos();
    secs * 1000 + (nanos / 1_000_000) as u64
}

/// Whole milliseconds of a duration, or `None` when they do not fit in a `u64`.
pub fn checked_to_millis(duration: Duration) -> (r: Option<u64>)
    ensures
        match r {
            Some(ms) => ms == millis_of(
                duration_secs(duration) as int,
                duration_subsec_nanos(duration) as int,
            ),
            None => millis_of(duration_secs(duration) as int, duration_subsec_nanos(duration) as int)
                > u64::MAX,
        },
{
    let secs = duration.as_secs();
    let sub_millis = (duration.subsec_nanos() / 1_000_000) as u64;
    let limit = (u64::MAX - sub_millis) / 1000;
    assert(secs <= limit <==> secs * 1000 + sub_millis <= u64::MAX) by (nonlinear_arith)
        requires
            limit == (u64::MAX - sub_millis) / 1000,
            sub_millis < 1000,
    ;
    if secs <= limit {
        Some(to_millis(duration))
    } else {
        None
    }
}

/// Milliseconds grow with the duration: durations compare by their whole
/// seconds first and their nanoseconds next, and a later duration never gives
/// fewer milliseconds. (A duration's nanoseconds are below one billion, as
/// `Duration::subsec_nanos` reports.)
pub proof fn lemma_millis_monotone(d1: Duration, d2: Duration)
    requires
        duration_subsec_nanos(d1) < 1_000_000_000,
        duration_subsec_nanos(d2) < 1_000_000_000,
        duration_secs(d1) < duration_secs(d2) || (duration_secs(d1) == duration_secs(d2)
            && duration_subsec_nanos(d1) <= duration_subsec_nanos(d2)),
    ensures
        millis_of(duration_secs(d1) as int, duration_subsec_nanos(d1) as int) <= millis_of(
            duration_secs(d2) as int,
            duration_subsec_nanos(d2) as int,
        ),
{
    let n1 = duration_subsec_nanos(d1) as int;
    let n2 = duration_subsec_nanos(d2) as int;
    assert(n1 / 1_000_000 < 1000);
    assert(n1 <= n2 ==> n1 / 1_000_000 <= n2 / 1_000_000) by (nonlinear_arith);
}

/// A duration of `m` milliseconds, made of `m / 1000` whole seconds and
/// `m % 1000` milliseconds of nanoseconds, gives back exactly `m`.
pub proof fn lemma_millis_round_trip(m: u64)
    ensures
        millis_of((m / 1000) as int, ((m % 1000) * 1_000_000) as int) == m,
{
    assert(((m % 1000) * 1_000_000) / 1_000_000 == m % 1000) by (nonlinear_arith);
}

} // verus!
