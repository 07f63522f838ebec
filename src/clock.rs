//! Wall-clock time and the sampling rule for progress reports.
use vstd::prelude::*;
use vstd::arithmetic::div_mod::lemma_fundamental_div_mod_converse;
use std::time::{Duration, SystemTime, SystemTimeError, UNIX_EPOCH};

verus! {

#[verifier::external_type_specification]
#[verifier::external_body]
pub struct ExSystemTime(SystemTime);

#[verifier::external_type_specification]
#[verifier::external_body]
pub struct ExSystemTimeError(SystemTimeError);

/// A progress report is printed when the time in milliseconds is a
/// multiple of this.
pub const REPORT_EVERY_MS: u128 = 10000;

/// Nanoseconds in one second.
pub const NANOS_PER_SEC: u32 = 1_000_000_000;

/// Nanoseconds in one millisecond.
pub const NANOS_PER_MILLI: u32 = 1_000_000;

/// The whole milliseconds in `secs` seconds and `nanos` nanoseconds.
pub open spec fn millis_spec(secs: u64, nanos: u32) -> int {
    (secs as int) * 1000 + (nanos as int) / (NANOS_PER_MILLI as int)
}

/// Relies on std's `SystemTime::now`: the current wall-clock time.
#[verifier::external_body]
fn system_now() -> (r: SystemTime) {
    SystemTime::now()
}

/// Relies on std's `SystemTime::duration_since`, against the Unix epoch:
/// the time elapsed since then, or an error where `t` lies before it.
#[verifier::external_body]
fn since_unix_epoch(t: &SystemTime) -> (r: Result<Duration, SystemTimeError>) {
    t.duration_since(UNIX_EPOCH)
}

/// Relies on std's `Duration::as_secs`: the whole seconds in `d`.
#[verifier::external_body]
fn whole_secs(d: &Duration) -> (r: u64) {
    d.as_secs()
}

/// Relies on std's `Duration::subsec_nanos`: the fractional part of `d` in
/// nanoseconds, which is always less than one second.
#[verifier::external_body]
fn subsec_nanos(d: &Duration) -> (r: u32)
    ensures
        r < NANOS_PER_SEC,
{
    d.subsec_nanos()
}

/// The whole milliseconds in a duration of `secs` seconds and `nanos`
/// nanoseconds, as `Duration::as_millis` counts them.
pub fn millis_of(secs: u64, nanos: u32) -> (r: u128)
    ensures
        r == millis_spec(secs, nanos),
{
    secs as u128 * 1000 + (nanos / NANOS_PER_MILLI) as u128
}

/// The nanoseconds in a duration of `secs` seconds and `nanos` nanoseconds.
pub open spec fn nanos_total(secs: u64, nanos: u32) -> int {
    (secs as int) * (NANOS_PER_SEC as int) + (nanos as int)
}

/// The whole milliseconds of a duration are its nanoseconds divided by a
/// million, rounded down.
pub proof fn lemma_millis_of_nanos(secs: u64, nanos: u32)
    requires
        nanos < NANOS_PER_SEC,
    ensures
        millis_spec(secs, nanos) == nanos_total(secs, nanos) / (NANOS_PER_MILLI as int),
{
    let d = NANOS_PER_MILLI as int;
    let q = (nanos as int) / d;
    let rem = (nanos as int) % d;
    lemma_fundamental_div_mod_converse(nanos as int, d, q, rem);
    assert(nanos_total(secs, nanos) == ((secs as int) * 1000 + q) * d + rem) by (nonlinear_arith)
        requires
            nanos as int == q * d + rem,
            d == 1_000_000,
    ;
    lemma_fundamental_div_mod_converse(nanos_total(secs, nanos), d, (secs as int) * 1000 + q, rem);
}

/// Of two readings in order, the later has at least as many whole
/// milliseconds, and at most one more than the whole milliseconds elapsed
/// between them.
pub proof fn lemma_millis_readings(s1: u64, n1: u32, s2: u64, n2: u32)
    requires
        n1 < NANOS_PER_SEC,
        n2 < NANOS_PER_SEC,
        nanos_total(s1, n1) <= nanos_total(s2, n2),
    ensures
        millis_spec(s1, n1) <= millis_spec(s2, n2),
        millis_spec(s2, n2) - millis_spec(s1, n1) <= (nanos_total(s2, n2) - nanos_total(s1, n1))
            / (NANOS_PER_MILLI as int) + 1,
{
    let d = NANOS_PER_MILLI as int;
    let a = nanos_total(s1, n1);
    let b = nanos_total(s2, n2);
    lemma_millis_of_nanos(s1, n1);
    lemma_millis_of_nanos(s2, n2);
    let qa = a / d;
    let ra = a % d;
    let qx = (b - a) / d;
    let rx = (b - a) % d;
    lemma_fundamental_div_mod_converse(a, d, qa, ra);
    lemma_fundamental_div_mod_converse(b - a, d, qx, rx);
    assert(b == (qa + qx) * d + (ra + rx)) by (nonlinear_arith)
        requires
            a == qa * d + ra,
            b - a == qx * d + rx,
    ;
    if ra + rx < d {
        lemma_fundamental_div_mod_converse(b, d, qa + qx, ra + rx);
    } else {
        assert(b == (qa + qx + 1) * d + (ra + rx - d)) by (nonlinear_arith)
            requires
                b == (qa + qx) * d + (ra + rx),
        ;
        lemma_fundamental_div_mod_converse(b, d, qa + qx + 1, ra + rx - d);
    }
    assert(qx >= 0) by (nonlinear_arith)
        requires
            b - a == qx * d + rx,
            b - a >= 0,
            0 <= rx < d,
            d > 0,
    ;
}

/// Milliseconds since the Unix epoch, or `None` where the system clock
/// reads a time before it.
pub fn get_current_time() -> (r: Option<u128>)
    ensures
        r matches Some(m) ==> exists|s: u64, n: u32|
            n < NANOS_PER_SEC && m == #[trigger] millis_spec(s, n),
{
    let now = system_now();
    match since_unix_epoch(&now) {
        Ok(elapsed) => {
            let secs = whole_secs(&elapsed);
            let nanos = subsec_nanos(&elapsed);
            let m = millis_of(secs, nanos);
            assert(nanos < NANOS_PER_SEC && m == millis_spec(secs, nanos));
            Some(m)
        },
        Err(_) => None,
    }
}

/// Whether a completion seen at `now_ms` prints a progress report: exactly
/// when `now_ms` is a multiple of `REPORT_EVERY_MS`.
pub fn should_report(now_ms: u128) -> (r: bool)
    ensures
        r == (now_ms % REPORT_EVERY_MS == 0),
{
    now_ms % REPORT_EVERY_MS == 0
}

} // verus!
