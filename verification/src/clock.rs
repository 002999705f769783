use vstd::prelude::*;

verus! {

/// Nanoseconds in one second.
pub const NANOS_PER_SEC: u64 = 1_000_000_000;

/// The whole hours, the minutes past the hour and the seconds past the minute
/// of a span of `seconds`.
pub open spec fn hms(seconds: u64) -> (u64, u64, u64) {
    (seconds / 3600, (seconds % 3600) / 60, seconds % 60)
}

/// Splits a span of seconds into hours, minutes and seconds.
pub fn seconds_to_hms(seconds: u64) -> (r: (u64, u64, u64))
    ensures
        r == hms(seconds),
{
    let hours = seconds / 3600;
    let minutes = (seconds % 3600) / 60;
    let secs = seconds % 60;
    (hours, minutes, secs)
}

/// The whole seconds elapsed from instant `start` to instant `now`, both in
/// nanoseconds on one monotonic clock; an instant before `start` counts as no
/// time elapsed.
pub open spec fn elapsed_secs_spec(start: u64, now: u64) -> u64 {
    if start <= now {
        ((now - start) / (NANOS_PER_SEC as int)) as u64
    } else {
        0
    }
}

/// The whole seconds elapsed between two instants given in nanoseconds.
pub fn elapsed_secs(start: u64, now: u64) -> (r: u64)
    ensures
        r == elapsed_secs_spec(start, now),
        start <= now ==> r * NANOS_PER_SEC <= now - start < (r + 1) * NANOS_PER_SEC,
        now < start ==> r == 0,
{
    if start <= now {
        let r = (now - start) / NANOS_PER_SEC;
        proof {
            let n = (now - start) as int;
            let d = NANOS_PER_SEC as int;
            assert(r * d <= n < (r + 1) * d) by (nonlinear_arith)
                requires
                    d == 1_000_000_000,
                    r == n / d,
                    n >= 0,
            ;
        }
        r
    } else {
        0
    }
}

/// The parts that `seconds_to_hms` gives add up to the span again, and the
/// minutes and seconds each stay below sixty.
pub proof fn lemma_hms_recompose(seconds: u64)
    ensures
        hms(seconds).0 * 3600 + hms(seconds).1 * 60 + hms(seconds).2 == seconds,
        hms(seconds).1 < 60,
        hms(seconds).2 < 60,
{
    let s = seconds as int;
    assert(s == (s / 3600) * 3600 + s % 3600) by (nonlinear_arith);
    assert(s % 3600 == ((s % 3600) / 60) * 60 + (s % 3600) % 60) by (nonlinear_arith);
    assert((s % 3600) % 60 == s % 60) by (nonlinear_arith);
    assert((s % 3600) / 60 < 60) by (nonlinear_arith);
}

/// Hours, minutes below sixty and seconds below sixty that add up to a span
/// are exactly what `seconds_to_hms` gives for it.
pub proof fn lemma_hms_unique(seconds: u64, h: u64, m: u64, s: u64)
    requires
        m < 60,
        s < 60,
        h * 3600 + m * 60 + s == seconds,
    ensures
        hms(seconds) == (h, m, s),
{
    let n = seconds as int;
    assert(n / 3600 == h && n % 3600 == m * 60 + s) by (nonlinear_arith)
        requires n == h * 3600 + (m * 60 + s), 0 <= m * 60 + s < 3600, h >= 0;
    assert(((m * 60 + s) as int) / 60 == m && ((m * 60 + s) as int) % 60 == s) by (nonlinear_arith)
        requires m < 60, s < 60;
    assert(n % 60 == s) by (nonlinear_arith)
        requires n == h * 3600 + m * 60 + s, s < 60, h >= 0, m >= 0;
}

} // verus!
