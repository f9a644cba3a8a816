//! Calendar dates as whole seconds since the Unix epoch, read with chrono.
use vstd::prelude::*;

verus! {

/// The instant that a checkpoint date such as `"Sep 2, 2024"` names (its midnight, UTC),
/// in seconds since the Unix epoch, or `None` where the text is no such date.
pub uninterp spec fn date_text_timestamp(text: Seq<char>) -> Option<i64>;

/// Relies on chrono's `DateTime::parse_from_str` (format `"%b %d, %Y %H:%M:%S %z"`, the
/// text followed by midnight at offset zero) and `DateTime::timestamp`: the result depends
/// on the text alone.
#[verifier::external_body]
pub(crate) fn parse_date_text(text: &str) -> (r: Option<i64>)
    ensures
        r == date_text_timestamp(text@),
{
    match chrono::DateTime::parse_from_str(&format!("{} 0:0:0 +0000", text), "%b %d, %Y %H:%M:%S %z") {
        Ok(date) => Some(date.timestamp()),
        Err(_) => None,
    }
}

/// The text (format `"%b %d, %Y"`, like `Sep 02, 2024`) of the UTC date that an instant falls
/// on, or `None` where chrono cannot represent the instant.
pub uninterp spec fn timestamp_date_text(ts: i64) -> Option<Seq<char>>;

/// Relies on chrono's `DateTime::from_timestamp` (`None` out of its range) and on formatting
/// with `"%b %d, %Y"`: the result depends on the instant alone.
#[verifier::external_body]
pub(crate) fn format_date(ts: i64) -> (r: Option<String>)
    ensures
        match timestamp_date_text(ts) {
            Some(t) => r is Some && r->Some_0@ == t,
            None => r is None,
        },
{
    match chrono::DateTime::from_timestamp(ts, 0) {
        Some(date) => Some(date.format("%b %d, %Y").to_string()),
        None => None,
    }
}

/// Relies on std's `SystemTime::now` and `SystemTime::duration_since(UNIX_EPOCH)`: the
/// current instant in whole seconds since the Unix epoch, or `None` where the clock reads a
/// time before 1970 (the `Err` of `duration_since`) or one past the range of `i64`. Nothing is
/// promised of its value.
#[verifier::external_body]
pub(crate) fn now_timestamp() -> (r: Option<i64>) {
    match std::time::SystemTime::now().duration_since(std::time::UNIX_EPOCH) {
        Ok(elapsed) => i64::try_from(elapsed.as_secs()).ok(),
        Err(_) => None,
    }
}

} // verus!
