use vstd::prelude::*;

use crate::error::Timeout;

verus! {

/// The whole seconds of a duration, as `Duration::as_secs` returns them.
pub uninterp spec fn duration_secs(d: core::time::Duration) -> u64;

/// The fractional part of a duration in nanoseconds, as
/// `Duration::subsec_nanos` returns it.
pub uninterp spec fn duration_subsec(d: core::time::Duration) -> u32;

/// Relies on `Duration::as_secs`: the whole seconds of the duration, which
/// depend on the duration alone.
pub assume_specification[ core::time::Duration::as_secs ](d: &core::time::Duration) -> (r: u64)
    ensures
        r == duration_secs(*d),
;

/// Relies on `Duration::subsec_nanos`: the fractional part of the duration in
/// nanoseconds, which depends on the duration alone and which the
/// documentation states is always below one second.
pub assume_specification[ core::time::Duration::subsec_nanos ](d: &core::time::Duration) -> (r:
    u32)
    ensures
        r == duration_subsec(*d),
        r < 1_000_000_000,
;

/// Nanoseconds in a second.
pub const NANOS_PER_SEC: i64 = 1_000_000_000;

/// The value of a native wait timeout in milliseconds that means "no limit".
pub const INFINITE_MILLIS: u32 = 0xFFFF_FFFF;

/// An absolute point in time, as seconds and nanoseconds since the clock's epoch.
#[derive(Clone, Copy, Debug, PartialEq, Eq, Structural)]
pub struct TimeSpec {
    pub sec: i64,
    pub nsec: i64,
}

/// The point in time `t` as nanoseconds since the epoch.
pub open spec fn nanos_of(t: TimeSpec) -> int {
    t.sec * 1_000_000_000 + t.nsec
}

/// Whether the nanosecond part of `t` is below one second, as native calls demand.
pub open spec fn is_normalized(t: TimeSpec) -> bool {
    0 <= t.nsec < 1_000_000_000
}

/// The latest point in time a `TimeSpec` can hold.
pub open spec fn latest() -> TimeSpec {
    TimeSpec { sec: i64::MAX, nsec: 999_999_999 }
}

/// The earliest point in time a normalized `TimeSpec` can hold.
pub open spec fn earliest() -> TimeSpec {
    TimeSpec { sec: i64::MIN, nsec: 0 }
}

/// Returns the point in time `sec` seconds and `nsec` nanoseconds after the
/// epoch with its nanoseconds brought below one second, as a clock may hand
/// them over either way; a point outside what can be held becomes the
/// latest or the earliest one.
pub fn normalize(sec: i64, nsec: i64) -> (r: TimeSpec)
    ensures
        is_normalized(r),
        nanos_of(earliest()) <= sec * 1_000_000_000 + nsec <= nanos_of(latest()) ==> nanos_of(r)
            == sec * 1_000_000_000 + nsec,
        sec * 1_000_000_000 + nsec > nanos_of(latest()) ==> r == latest(),
        sec * 1_000_000_000 + nsec < nanos_of(earliest()) ==> r == earliest(),
{
    let q: i64 = nsec / NANOS_PER_SEC;
    let m: i64 = nsec % NANOS_PER_SEC;
    let (carry, rest): (i64, i64) = if m < 0 {
        (q - 1, m + NANOS_PER_SEC)
    } else {
        (q, m)
    };
    let total: i128 = sec as i128 + carry as i128;
    proof {
        assert(nsec == carry * 1_000_000_000 + rest) by (nonlinear_arith)
            requires
                nsec == q * 1_000_000_000 + m,
                (m < 0 ==> carry == q - 1 && rest == m + 1_000_000_000),
                (m >= 0 ==> carry == q && rest == m),
        ;
        assert(sec * 1_000_000_000 + nsec == total * 1_000_000_000 + rest) by (nonlinear_arith)
            requires
                nsec == carry * 1_000_000_000 + rest,
                total == sec + carry,
        ;
    }
    if total > i64::MAX as i128 {
        proof {
            assert(total * 1_000_000_000 >= (i64::MAX + 1) * 1_000_000_000) by (nonlinear_arith)
                requires
                    total >= i64::MAX + 1,
            ;
        }
        TimeSpec { sec: i64::MAX, nsec: 999_999_999 }
    } else if total < i64::MIN as i128 {
        proof {
            assert(total * 1_000_000_000 <= (i64::MIN - 1) * 1_000_000_000) by (nonlinear_arith)
                requires
                    total <= i64::MIN - 1,
            ;
        }
        TimeSpec { sec: i64::MIN, nsec: 0 }
    } else {
        proof {
            assert(total * 1_000_000_000 <= i64::MAX * 1_000_000_000) by (nonlinear_arith)
                requires
                    total <= i64::MAX,
            ;
            assert(total * 1_000_000_000 >= i64::MIN * 1_000_000_000) by (nonlinear_arith)
                requires
                    total >= i64::MIN,
            ;
        }
        TimeSpec { sec: total as i64, nsec: rest }
    }
}

/// Nanoseconds in `secs` seconds and `nanos` nanoseconds.
pub open spec fn span_nanos(secs: u64, nanos: u32) -> int {
    secs * 1_000_000_000 + nanos
}

/// The point `secs` seconds and `nanos` nanoseconds after `now`, or the
/// latest point that can be held when it lies beyond.
pub open spec fn deadline_holds(now: TimeSpec, secs: u64, nanos: u32, r: TimeSpec) -> bool {
    &&& is_normalized(r)
    &&& nanos_of(now) + span_nanos(secs, nanos) <= nanos_of(latest()) ==> nanos_of(r) == nanos_of(
        now,
    ) + span_nanos(secs, nanos)
    &&& nanos_of(now) + span_nanos(secs, nanos) > nanos_of(latest()) ==> r == latest()
}

/// Returns the point `secs` seconds and `nanos` nanoseconds after `now`,
/// normalized; a point beyond what can be held becomes the latest one.
pub fn add_span(now: TimeSpec, secs: u64, nanos: u32) -> (r: TimeSpec)
    requires
        is_normalized(now),
        nanos < 1_000_000_000,
    ensures
        deadline_holds(now, secs, nanos, r),
{
    let mut nsec: i64 = now.nsec + nanos as i64;
    let mut carry: i128 = 0;
    if nsec >= NANOS_PER_SEC {
        nsec = nsec - NANOS_PER_SEC;
        carry = 1;
    }
    let total: i128 = now.sec as i128 + secs as i128 + carry;
    proof {
        assert(nanos_of(now) + span_nanos(secs, nanos) == total * 1_000_000_000 + nsec)
            by (nonlinear_arith)
            requires
                nsec + carry * 1_000_000_000 == now.nsec + nanos,
                total == now.sec + secs + carry,
        ;
    }
    if total > i64::MAX as i128 {
        proof {
            assert(total * 1_000_000_000 >= (i64::MAX + 1) * 1_000_000_000) by (nonlinear_arith)
                requires
                    total >= i64::MAX + 1,
            ;
        }
        TimeSpec { sec: i64::MAX, nsec: 999_999_999 }
    } else {
        proof {
            assert(total * 1_000_000_000 <= i64::MAX * 1_000_000_000) by (nonlinear_arith)
                requires
                    total <= i64::MAX,
            ;
        }
        TimeSpec { sec: total as i64, nsec }
    }
}

/// Returns the deadline `d` after `now`, for the native calls that wait
/// until an absolute time.
pub fn deadline_after(now: TimeSpec, d: &std::time::Duration) -> (r: TimeSpec)
    requires
        is_normalized(now),
    ensures
        deadline_holds(now, duration_secs(*d), duration_subsec(*d), r),
{
    let secs = d.as_secs();
    let nanos = d.subsec_nanos();
    add_span(now, secs, nanos)
}

/// Returns whether `now` has reached `deadline`.
pub fn reached(now: TimeSpec, deadline: TimeSpec) -> (r: bool)
    requires
        is_normalized(now),
        is_normalized(deadline),
    ensures
        r == (nanos_of(now) >= nanos_of(deadline)),
{
    proof {
        if now.sec > deadline.sec {
            assert(now.sec * 1_000_000_000 >= (deadline.sec + 1) * 1_000_000_000)
                by (nonlinear_arith)
                requires
                    now.sec >= deadline.sec + 1,
            ;
        } else if now.sec < deadline.sec {
            assert((now.sec + 1) * 1_000_000_000 <= deadline.sec * 1_000_000_000)
                by (nonlinear_arith)
                requires
                    now.sec + 1 <= deadline.sec,
            ;
        }
    }
    now.sec > deadline.sec || (now.sec == deadline.sec && now.nsec >= deadline.nsec)
}

/// Milliseconds in `secs` seconds and `nanos` nanoseconds, rounded up so
/// that a wait never ends before the span, and capped just below
/// `INFINITE_MILLIS`, so that a bounded wait stays bounded.
pub open spec fn millis_spec(secs: u64, nanos: u32) -> int {
    let m = secs * 1000 + (nanos + 999_999) / 1_000_000;
    if m < INFINITE_MILLIS { m } else { INFINITE_MILLIS - 1 }
}

/// A relative wait never ends before its span: unless the span is capped,
/// the milliseconds handed to the native call cover it in full, and by less
/// than one millisecond more.
pub proof fn lemma_millis_not_early(secs: u64, nanos: u32)
    requires
        nanos < 1_000_000_000,
    ensures
        millis_spec(secs, nanos) < INFINITE_MILLIS - 1 ==> millis_spec(secs, nanos) * 1_000_000
            >= span_nanos(secs, nanos),
        millis_spec(secs, nanos) < INFINITE_MILLIS - 1 ==> millis_spec(secs, nanos) * 1_000_000
            < span_nanos(secs, nanos) + 1_000_000,
{
    let f = (nanos + 999_999) / 1_000_000;
    assert(f * 1_000_000 >= nanos && f * 1_000_000 < nanos + 1_000_000) by (nonlinear_arith)
        requires
            f == (nanos + 999_999) / 1_000_000,
            nanos >= 0,
    ;
    assert((secs * 1000 + f) * 1_000_000 == secs * 1_000_000_000 + f * 1_000_000)
        by (nonlinear_arith);
}

/// Returns the milliseconds in `secs` seconds and `nanos` nanoseconds, for
/// the native calls that wait for a relative time.
pub fn millis_from_parts(secs: u64, nanos: u32) -> (r: u32)
    ensures
        r == millis_spec(secs, nanos),
        r < INFINITE_MILLIS,
{
    let cap: u64 = (INFINITE_MILLIS - 1) as u64;
    let frac: u64 = (nanos as u64 + 999_999) / 1_000_000;
    if secs >= cap / 1000 + 1 {
        proof {
            assert(secs * 1000 >= (cap / 1000 + 1) * 1000) by (nonlinear_arith)
                requires
                    secs >= cap / 1000 + 1,
            ;
        }
        (INFINITE_MILLIS - 1) as u32
    } else {
        proof {
            assert(secs * 1000 <= (cap / 1000) * 1000) by (nonlinear_arith)
                requires
                    secs <= cap / 1000,
            ;
        }
        let m: u64 = secs * 1000 + frac;
        if m < INFINITE_MILLIS as u64 {
            m as u32
        } else {
            (INFINITE_MILLIS - 1) as u32
        }
    }
}

/// Returns the timeout in milliseconds for the native calls that wait for a
/// relative time: `INFINITE_MILLIS` for no limit, and the span rounded up
/// (below `INFINITE_MILLIS`) otherwise.
pub fn wait_millis(timeout: &Timeout) -> (r: u32)
    ensures
        match timeout {
            Timeout::Infinite => r == INFINITE_MILLIS,
            Timeout::Val(d) => r == millis_spec(duration_secs(*d), duration_subsec(*d)),
        },
{
    match timeout {
        Timeout::Infinite => INFINITE_MILLIS,
        Timeout::Val(d) => millis_from_parts(d.as_secs(), d.subsec_nanos()),
    }
}

} // verus!
