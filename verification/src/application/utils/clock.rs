//! The current time, from the system clock.
use vstd::prelude::*;

verus! {

/// The instants, in microseconds since the Unix epoch, that a
/// `chrono::DateTime<Utc>` can hold: from -262143-01-01T00:00:00 to
/// 262142-12-31T23:59:59.999999.
pub open spec fn time_in_range(t: int) -> bool {
    -8_334_601_315_200_000_000 <= t <= 8_210_266_876_799_999_999
}

/// `chrono::Utc::now()` in microseconds since the Unix epoch; any value of
/// that type lies within the years that chrono supports.
#[verifier::external_body]
fn utc_now_micros() -> (r: i64)
    ensures
        time_in_range(r as int),
{
    chrono::Utc::now().timestamp_micros()
}

/// The current time in microseconds since the Unix epoch.
pub(crate) fn now_micros() -> (r: i64)
    ensures
        time_in_range(r as int),
{
    utc_now_micros()
}

} // verus!
