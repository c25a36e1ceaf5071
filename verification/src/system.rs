//! The calls into the clock, the random-number generator, and the date and
//! UUID readers.
use vstd::prelude::*;

use crate::domain::time::Timestamp;

verus! {

/// Reads the system clock as a `chrono::DateTime<Utc>` (chrono's
/// `From<SystemTime>`, which maps a clock set before the Unix epoch to
/// negative seconds) and splits it into whole seconds (`timestamp`) and
/// nanoseconds within the second (`timestamp_subsec_nanos`). The result
/// depends on the clock, so nothing is stated of it. The conversion fails
/// only for a clock outside chrono's range of dates (beyond year 262142 or
/// before year -262143).
#[verifier::external_body]
pub fn current_time() -> (r: Timestamp) {
    let now = chrono::DateTime::<chrono::Utc>::from(std::time::SystemTime::now());
    Timestamp { secs: now.timestamp(), nanos: now.timestamp_subsec_nanos() }
}

/// Calls `uuid::Uuid::new_v4()` and returns the UUID's 128 bits
/// (`as_u128`). The bits are random, so nothing is stated of them. The call
/// fails only when the operating system's random source does.
#[verifier::external_body]
pub fn random_alert_id() -> (r: u128) {
    uuid::Uuid::new_v4().as_u128()
}

/// The first second chrono can represent: the start of January 1 of year
/// -262143 (`DateTime::<Utc>::MIN_UTC`).
pub const MIN_CHRONO_SECS: i64 = -8_334_601_228_800i64;

/// The last second chrono can represent: the last second of December 31 of
/// year 262142 (`DateTime::<Utc>::MAX_UTC`).
pub const MAX_CHRONO_SECS: i64 = 8_210_266_876_799i64;

/// Whether `chrono::DateTime::from_timestamp(secs, 0)` gives a date: exactly
/// for the seconds from `MIN_CHRONO_SECS` to `MAX_CHRONO_SECS`.
pub open spec fn chrono_accepts_timestamp(secs: i64) -> bool {
    MIN_CHRONO_SECS <= secs <= MAX_CHRONO_SECS
}

/// The 128 bits of the UUID that `uuid::Uuid::parse_str` reads from a text,
/// or `None` when it refuses the text.
pub uninterp spec fn uuid_from_text(text: Seq<char>) -> Option<u128>;

/// Calls `chrono::DateTime::from_timestamp(secs, 0)` and tells whether it
/// gave a date. The function refuses exactly the seconds whose day falls
/// outside chrono's year range (`MIN_YEAR..=MAX_YEAR`, checked by
/// `NaiveDate::from_ordinal_and_flags`), which is the range of
/// `chrono_accepts_timestamp`.
#[verifier::external_body]
pub fn timestamp_in_range(secs: i64) -> (r: bool)
    ensures
        r == chrono_accepts_timestamp(secs),
{
    chrono::DateTime::from_timestamp(secs, 0).is_some()
}

/// Calls `uuid::Uuid::parse_str(text)` and returns the parsed UUID's 128 bits
/// (`as_u128`), or `None` on a parse error; the result depends on the text
/// alone and is named `uuid_from_text`.
#[verifier::external_body]
pub fn parse_uuid(text: &str) -> (r: Option<u128>)
    ensures
        r == uuid_from_text(text@),
{
    match uuid::Uuid::parse_str(text) {
        Ok(u) => Some(u.as_u128()),
        Err(_) => None,
    }
}

} // verus!
