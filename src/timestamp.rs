use vstd::prelude::*;

verus! {

/// A point in time: microseconds since the Unix epoch, UTC.
#[derive(Clone, Copy, Debug, PartialEq, Eq, Structural)]
pub struct Timestamp {
    pub micros: i64,
}

/// Relies on `chrono::Utc::now` and `DateTime::timestamp_micros`: the current
/// UTC time in microseconds. `Utc::now` panics on a clock set before the
/// epoch, so a reading it returns is never negative.
#[verifier::external_body]
pub(crate) fn current_time() -> (r: Timestamp)
    ensures
        r.micros >= 0,
{
    Timestamp { micros: chrono::Utc::now().timestamp_micros() }
}

} // verus!
