//! Modification times for the reader: `2024-05-17 09:30:00`.
//!
//! A time is a number of seconds since the Unix epoch.  It is shown as the
//! civil date and time of day at a fixed offset from UTC, which the caller
//! chooses.  A time that cannot be shown is shown as nothing.

use chrono::TimeZone;
use vstd::prelude::*;

verus! {

/// The offset from UTC, in seconds east, that is used where the caller has
/// no wish of its own: UTC itself.
pub const DEFAULT_OFFSET_SECONDS: i32 = 0;

/// What `chrono` prints in the form `%Y-%m-%d %H:%M:%S` for the instant
/// `seconds` after the Unix epoch, seen `offset` seconds east of UTC; `None`
/// where it knows no such offset or no such instant.
pub uninterp spec fn civil_text_of(seconds: int, offset: int) -> Option<Seq<char>>;

/// `chrono::FixedOffset::east_opt`, `TimeZone::timestamp_opt` on that offset
/// and `DateTime::format` with `%Y-%m-%d %H:%M:%S`, printed to a string.
/// Neither the clock nor the time zone of the machine is read, so the text is
/// a function of the two numbers; the contract names it and says nothing of
/// the calendar.
#[verifier::external_body]
fn civil_text(seconds: i64, offset: i32) -> (out: Option<String>)
    ensures
        match out {
            Some(text) => civil_text_of(seconds as int, offset as int) == Some(text@),
            None => civil_text_of(seconds as int, offset as int) is None,
        },
{
    let zone = chrono::FixedOffset::east_opt(offset)?;
    let instant = zone.timestamp_opt(seconds, 0).single()?;
    Some(instant.format("%Y-%m-%d %H:%M:%S").to_string())
}

/// The text for a modification time: empty where the time is unknown, lies
/// beyond the signed 64-bit range, or cannot be shown at the offset.
pub open spec fn time_text(time: Option<u64>, offset: int) -> Seq<char> {
    match time {
        Some(seconds) if seconds <= i64::MAX => match civil_text_of(seconds as int, offset) {
            Some(text) => text,
            None => Seq::empty(),
        },
        _ => Seq::empty(),
    }
}

/// The modification time `time`, in seconds since the Unix epoch, as the
/// listing shows it at `offset` seconds east of UTC.
pub fn format_time(time: Option<u64>, offset: i32) -> (out: String)
    ensures
        out@ == time_text(time, offset as int),
{
    match time {
        Some(seconds) => {
            if seconds > i64::MAX as u64 {
                String::new()
            } else {
                match civil_text(seconds as i64, offset) {
                    Some(text) => text,
                    None => String::new(),
                }
            }
        },
        None => String::new(),
    }
}

} // verus!
