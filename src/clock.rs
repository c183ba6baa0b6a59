use vstd::prelude::*;

verus! {

/// Relies on std's SystemTime::now and SystemTime::duration_since, and on chrono's
/// TimeDelta::from_std and TimeDelta::num_microseconds: the current UTC wall-clock
/// time in microseconds since the Unix epoch, or `None` when the clock reads a time
/// before 1970 or one that does not fit an `i64` count of microseconds. None of these
/// calls panics. Nothing is promised of the value: the clock may be set back between
/// two readings.
#[verifier::external_body]
pub(crate) fn now_micros() -> (r: Option<i64>) {
    let since = std::time::SystemTime::now().duration_since(std::time::UNIX_EPOCH).ok()?;
    chrono::TimeDelta::from_std(since).ok()?.num_microseconds()
}

} // verus!
