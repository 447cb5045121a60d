//! The wall clock, in milliseconds since the Unix epoch.

use vstd::prelude::*;

verus! {

/// Reads the system clock and hands it to `chrono`'s conversion from
/// `SystemTime` to `DateTime<Utc>`, then returns its `timestamp_millis`.
/// Nothing is promised of the value: two calls may return anything. A
/// clock that stands before the year 1970 gives a negative count; the
/// conversion, unlike `chrono::Utc::now`, does not stop there.
#[verifier::external_body]
pub(crate) fn now_millis() -> i64 {
    chrono::DateTime::<chrono::Utc>::from(std::time::SystemTime::now()).timestamp_millis()
}

/// Milliseconds from `since` to `now`; 0 where `now` is not later.
pub open spec fn elapsed_spec(now: i64, since: i64) -> nat {
    if now <= since {
        0
    } else {
        (now - since) as nat
    }
}

/// Milliseconds from `since` to `now`; 0 where the clock has not advanced.
pub fn elapsed_ms(now: i64, since: i64) -> (r: u64)
    ensures
        r == elapsed_spec(now, since),
{
    if now <= since {
        0
    } else {
        (now as i128 - since as i128) as u64
    }
}

/// Whether something that last happened at `last` and happens every
/// `interval_ms` is due again at `now`.
pub fn is_due(now: i64, last: i64, interval_ms: u64) -> (r: bool)
    ensures
        r == (elapsed_spec(now, last) >= interval_ms),
{
    elapsed_ms(now, last) >= interval_ms
}

} // verus!
