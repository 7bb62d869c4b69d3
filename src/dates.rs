//! Calendar dates: reading a due date typed by the user and printing
//! instants, both through chrono.

use vstd::prelude::*;

use crate::error::BlazeError;
use crate::types::Timestamp;

verus! {

/// Pattern of a due date typed by the user.
pub const DATE_INPUT: &'static str = "%Y-%m-%d";

/// Pattern of a due date in a card table (month abbreviation and day).
pub const SHORT_DATE: &'static str = "%b %d";

/// Pattern of an instant in a card's detail view.
pub const LONG_DATE: &'static str = "%Y-%m-%d %H:%M";

/// Day number of the Unix epoch (1970-01-01) when 0001-01-01 is day 1.
pub const EPOCH_DAY: i64 = 719163;

pub const SECS_PER_DAY: i64 = 86400;

/// The day that chrono reads from `text` in `pattern`, counted with
/// 0001-01-01 as day 1; none when the text does not match.
pub uninterp spec fn parsed_day(text: Seq<char>, pattern: Seq<char>) -> Option<i32>;

/// The text chrono prints for the UTC instant `secs`/`nanos` in `pattern`;
/// none when the instant is outside chrono's range.
pub uninterp spec fn formatted_utc(secs: i64, nanos: u32, pattern: Seq<char>) -> Option<Seq<char>>;

/// The patterns the library prints with, all made of valid chrono items.
pub open spec fn known_pattern(p: Seq<char>) -> bool {
    p == SHORT_DATE@ || p == LONG_DATE@
}

/// Relies on chrono's `NaiveDate::parse_from_str` and
/// `Datelike::num_days_from_ce`: the date read from `text`, as a day number.
#[verifier::external_body]
fn parse_day(text: &str, pattern: &str) -> (r: Option<i32>)
    ensures
        r == parsed_day(text@, pattern@),
{
    match chrono::NaiveDate::parse_from_str(text, pattern) {
        Ok(d) => Some(chrono::Datelike::num_days_from_ce(&d)),
        Err(_) => None,
    }
}

/// Relies on chrono's `DateTime::<Utc>::from_timestamp` and `DateTime::format`:
/// the instant printed in `pattern`. Printing fails (and `to_string` panics)
/// only for a pattern with invalid items, which `requires` leaves out.
#[verifier::external_body]
fn format_utc(secs: i64, nanos: u32, pattern: &str) -> (r: Option<String>)
    requires
        known_pattern(pattern@),
    ensures
        r matches Some(s) ==> formatted_utc(secs, nanos, pattern@) == Some(s@),
        r is None ==> formatted_utc(secs, nanos, pattern@) is None,
{
    match chrono::DateTime::<chrono::Utc>::from_timestamp(secs, nanos) {
        Some(dt) => Some(dt.format(pattern).to_string()),
        None => None,
    }
}

/// The last second (23:59:59 UTC) of day number `day`.
pub open spec fn spec_end_of_day(day: i32) -> Timestamp {
    Timestamp { secs: ((day - EPOCH_DAY) * SECS_PER_DAY + SECS_PER_DAY - 1) as i64, nanos: 0 }
}

/// The last second (23:59:59 UTC) of day number `day` (0001-01-01 is day 1).
pub fn end_of_day(day: i32) -> (r: Timestamp)
    ensures
        r == spec_end_of_day(day),
{
    let d: i64 = day as i64 - EPOCH_DAY;
    Timestamp { secs: d * SECS_PER_DAY + SECS_PER_DAY - 1, nanos: 0 }
}

/// The message for a due date that does not read as `YYYY-MM-DD`.
pub open spec fn bad_date_message(text: Seq<char>) -> Seq<char> {
    "Invalid date format '"@ + text + "'. Use YYYY-MM-DD"@
}

/// The due date for `text` given the day chrono read from it: the end of
/// that day, or an invalid-input error when nothing was read.
pub fn due_from_day(text: &str, day: Option<i32>) -> (r: Result<Timestamp, BlazeError>)
    ensures
        day matches Some(d) ==> r == Ok::<Timestamp, BlazeError>(spec_end_of_day(d)),
        day is None ==> (r matches Err(BlazeError::InvalidInput(m)) && m@ == bad_date_message(text@)),
{
    match day {
        Some(d) => Ok(end_of_day(d)),
        None => {
            let mut m = String::from_str("Invalid date format '");
            m.append(text);
            m.append("'. Use YYYY-MM-DD");
            Err(BlazeError::InvalidInput(m))
        },
    }
}

/// Reads a due date typed as `YYYY-MM-DD`; the card is due at the end of
/// that day, UTC.
pub fn parse_due_date(text: &str) -> (r: Result<Timestamp, BlazeError>)
    ensures
        parsed_day(text@, DATE_INPUT@) matches Some(d) ==> r == Ok::<Timestamp, BlazeError>(
            spec_end_of_day(d),
        ),
        parsed_day(text@, DATE_INPUT@) is None ==> (r matches Err(BlazeError::InvalidInput(m))
            && m@ == bad_date_message(text@)),
{
    let day = parse_day(text, DATE_INPUT);
    due_from_day(text, day)
}

/// `t` printed in a known pattern; `?` when chrono cannot represent it.
pub fn format_instant(t: &Timestamp, pattern: &str) -> (r: String)
    requires
        known_pattern(pattern@),
    ensures
        formatted_utc(t.secs, t.nanos, pattern@) matches Some(s) ==> r@ == s,
        formatted_utc(t.secs, t.nanos, pattern@) is None ==> r@ == "?"@,
{
    match format_utc(t.secs, t.nanos, pattern) {
        Some(s) => s,
        None => String::from_str("?"),
    }
}

} // verus!
