//! Resolves the date-time values of calendar properties to instants.
//!
//! An instant is a number of milliseconds since 1970-01-01T00:00:00 UTC.

use chrono::offset::LocalResult;
use chrono::{Datelike, NaiveDateTime, TimeZone, Timelike};
use chrono_tz::Tz;
use vstd::prelude::*;
use vstd::string::*;

use crate::text::uppercase;

verus! {

/// Layout of a date-time value: `YYYYMMDDTHHMMSS`.
pub const DT_FMT: &'static str = "%Y%m%dT%H%M%S";

/// Time of day that a date-only value takes where an event starts.
pub const DAY_START: &'static str = "T000000";

/// Time of day that a date-only value takes where an event ends.
pub const DAY_END: &'static str = "T235959";

/// Why a date-time value has no instant.
#[derive(Clone, Copy, Debug, PartialEq, Eq, Structural)]
pub enum ParseFailure {
    /// The property carries no value.
    MissingValue,
    /// The value is no date-time of the expected layout.
    InvalidFormat,
    /// The wall-clock reading was skipped by the clock of the named zone.
    NonexistentLocalTime,
    /// The zone parameter names no known time zone.
    UnknownZone,
}

impl ParseFailure {
    /// A short description of the failure.
    pub fn message(&self) -> (text: &'static str)
        ensures
            text@ == match self {
                ParseFailure::MissingValue => "Missing datetime value"@,
                ParseFailure::InvalidFormat => "Invalid datetime format"@,
                ParseFailure::NonexistentLocalTime => "Invalid datetime for timezone"@,
                ParseFailure::UnknownZone => "Invalid timezone identifier"@,
            },
    {
        match self {
            ParseFailure::MissingValue => "Missing datetime value",
            ParseFailure::InvalidFormat => "Invalid datetime format",
            ParseFailure::NonexistentLocalTime => "Invalid datetime for timezone",
            ParseFailure::UnknownZone => "Invalid timezone identifier",
        }
    }
}

/// A calendar date and time of day without a zone.
#[derive(Clone, Copy, Debug, PartialEq, Eq, Structural)]
pub struct WallClock {
    pub year: i32,
    pub month: u32,
    pub day: u32,
    pub hour: u32,
    pub minute: u32,
    pub second: u32,
    /// Day of the week, Monday = 1 to Sunday = 7.
    pub weekday: u32,
    /// The instant of this reading on a UTC clock.
    pub utc_millis: i64,
}

/// The instants at which the clock of a zone shows a given reading.
#[derive(Clone, Copy, Debug, PartialEq, Eq, Structural)]
pub enum LocalInstants {
    /// The clock sprang forward over the reading.
    Nonexistent,
    /// The clock shows the reading once.
    Single(i64),
    /// The clock was turned back and shows the reading twice: earlier, later.
    Ambiguous(i64, i64),
}

/// What `chrono::NaiveDateTime::parse_from_str` reads from `text` under
/// `format`; `None` where it reports an error.
pub uninterp spec fn wall_clock_reading(text: Seq<char>, format: Seq<char>) -> Option<WallClock>;

/// Whether `chrono_tz::Tz` knows a zone of this name.
pub uninterp spec fn zone_exists(name: Seq<char>) -> bool;

/// What `chrono::TimeZone::with_ymd_and_hms` finds for a reading on the clock
/// of the zone `name`; `None` where the zone is unknown.
pub uninterp spec fn zone_instants(
    name: Seq<char>,
    year: int,
    month: int,
    day: int,
    hour: int,
    minute: int,
    second: int,
) -> Option<LocalInstants>;

/// Calls `chrono::NaiveDateTime::parse_from_str` and hands out the fields of
/// the date-time it returns. The result depends on the two texts alone. The
/// weekday is `Weekday::number_from_monday`, which lies between 1 and 7; the
/// instant is that of `and_utc().timestamp_millis()`.
#[verifier::external_body]
pub(crate) fn read_wall_clock(text: &str, format: &str) -> (reading: Option<WallClock>)
    ensures
        reading == wall_clock_reading(text@, format@),
        reading matches Some(clock) ==> 1 <= clock.weekday <= 7,
{
    match NaiveDateTime::parse_from_str(text, format) {
        Ok(dt) => Some(
            WallClock {
                year: dt.year(),
                month: dt.month(),
                day: dt.day(),
                hour: dt.hour(),
                minute: dt.minute(),
                second: dt.second(),
                weekday: dt.weekday().number_from_monday(),
                utc_millis: dt.and_utc().timestamp_millis(),
            },
        ),
        Err(_) => None,
    }
}

/// Asks `chrono_tz::Tz` whether it parses `name`, which it does exactly for
/// the names of its zone table.
#[verifier::external_body]
pub(crate) fn is_zone_name(name: &str) -> (known: bool)
    ensures
        known == zone_exists(name@),
{
    name.parse::<Tz>().is_ok()
}

/// Calls `chrono::TimeZone::with_ymd_and_hms` on the zone that `chrono_tz::Tz`
/// parses from `name`, and hands out the instants as milliseconds. The result
/// depends on the arguments alone, is `None` exactly where the name is
/// unknown, and an ambiguous reading comes as (earliest, latest).
#[verifier::external_body]
pub(crate) fn local_instants(
    name: &str,
    year: i32,
    month: u32,
    day: u32,
    hour: u32,
    minute: u32,
    second: u32,
) -> (found: Option<LocalInstants>)
    ensures
        found == zone_instants(
            name@,
            year as int,
            month as int,
            day as int,
            hour as int,
            minute as int,
            second as int,
        ),
        found is Some <==> zone_exists(name@),
        found matches Some(LocalInstants::Ambiguous(early, late)) ==> early <= late,
{
    let zone = name.parse::<Tz>().ok()?;
    Some(
        match zone.with_ymd_and_hms(year, month, day, hour, minute, second) {
            LocalResult::None => LocalInstants::Nonexistent,
            LocalResult::Single(at) => LocalInstants::Single(at.timestamp_millis()),
            LocalResult::Ambiguous(early, late) => LocalInstants::Ambiguous(
                early.timestamp_millis(),
                late.timestamp_millis(),
            ),
        },
    )
}

/// The instant of a date-time text read on a UTC clock.
pub open spec fn utc_resolution(stamp: Seq<char>) -> Result<i64, ParseFailure> {
    match wall_clock_reading(stamp, DT_FMT@) {
        Some(clock) => Ok(clock.utc_millis),
        None => Err(ParseFailure::InvalidFormat),
    }
}

/// The instant that a role takes from the instants of a local reading: an
/// event starts at the earlier and ends at the later of two.
pub open spec fn pick_instant(found: LocalInstants, is_start: bool) -> Result<i64, ParseFailure> {
    match found {
        LocalInstants::Nonexistent => Err(ParseFailure::NonexistentLocalTime),
        LocalInstants::Single(at) => Ok(at),
        LocalInstants::Ambiguous(early, late) => Ok(
            if is_start {
                early
            } else {
                late
            },
        ),
    }
}

/// The instant of a date-time text read on the clock of the zone `name`.
pub open spec fn zoned_resolution(stamp: Seq<char>, name: Seq<char>, is_start: bool) -> Result<
    i64,
    ParseFailure,
> {
    if !zone_exists(name) {
        Err(ParseFailure::UnknownZone)
    } else {
        match wall_clock_reading(stamp, DT_FMT@) {
            None => Err(ParseFailure::InvalidFormat),
            Some(clock) => match zone_instants(
                name,
                clock.year as int,
                clock.month as int,
                clock.day as int,
                clock.hour as int,
                clock.minute as int,
                clock.second as int,
            ) {
                Some(found) => pick_instant(found, is_start),
                None => Err(ParseFailure::UnknownZone),
            },
        }
    }
}

/// The two instants of a date-time text whose reading the clock of the zone
/// `name` shows twice.
pub open spec fn twofold(stamp: Seq<char>, name: Seq<char>) -> Option<(i64, i64)> {
    match wall_clock_reading(stamp, DT_FMT@) {
        Some(clock) => match zone_instants(
            name,
            clock.year as int,
            clock.month as int,
            clock.day as int,
            clock.hour as int,
            clock.minute as int,
            clock.second as int,
        ) {
            Some(LocalInstants::Ambiguous(early, late)) => Some((early, late)),
            _ => None,
        },
        None => None,
    }
}

/// Whether a value is read on the clock of a zone where one is named: it is
/// no date and does not end in `Z`.
pub open spec fn reads_zone(raw: Seq<char>) -> bool {
    let value = uppercase(raw);
    value.len() != 8 && (value.len() == 0 || value.last() != 'Z')
}

/// The instant of the value `raw` with the zone parameter `zone`, for the
/// start of an event (`is_start`) or its end.
///
/// The value is read without regard to case. Eight characters are a date: the
/// event starts at 00:00:00 and ends at 23:59:59 of that day in UTC. A value
/// that ends in `Z` is a UTC date-time. Any other value is a date-time on the
/// clock of the named zone, or in UTC where no zone is named.
pub open spec fn resolution(raw: Seq<char>, zone: Option<Seq<char>>, is_start: bool) -> Result<
    i64,
    ParseFailure,
> {
    let value = uppercase(raw);
    if value.len() == 8 {
        utc_resolution(
            value + (if is_start {
                DAY_START@
            } else {
                DAY_END@
            }),
        )
    } else if value.len() > 0 && value.last() == 'Z' {
        utc_resolution(value.drop_last())
    } else {
        match zone {
            Some(name) => zoned_resolution(value, name, is_start),
            None => utc_resolution(value),
        }
    }
}

/// A value whose upper-case form has eight characters is a date, whatever
/// zone is named beside it: the event starts at the instant of 00:00:00 of
/// that day on a UTC clock and ends at that of 23:59:59.
pub proof fn law_date_is_whole_day(raw: Seq<char>, zone: Option<Seq<char>>)
    requires
        uppercase(raw).len() == 8,
    ensures
        resolution(raw, zone, true) == utc_resolution(uppercase(raw) + DAY_START@),
        resolution(raw, zone, false) == utc_resolution(uppercase(raw) + DAY_END@),
{
}

/// A date-time whose reading the clock of its zone shows twice starts at the
/// first and ends at the second of the two instants that the zone gives for
/// it, which come as earlier and later.
pub proof fn law_ambiguous_reading(raw: Seq<char>, name: Seq<char>, early: i64, late: i64)
    requires
        reads_zone(raw),
        zone_exists(name),
        twofold(uppercase(raw), name) == Some((early, late)),
    ensures
        resolution(raw, Some(name), true) == Ok::<i64, ParseFailure>(early),
        resolution(raw, Some(name), false) == Ok::<i64, ParseFailure>(late),
{
}

/// Reads a date-time text on a UTC clock.
pub fn utc_instant(stamp: &str) -> (instant: Result<i64, ParseFailure>)
    ensures
        instant == utc_resolution(stamp@),
{
    match read_wall_clock(stamp, DT_FMT) {
        Some(clock) => Ok(clock.utc_millis),
        None => Err(ParseFailure::InvalidFormat),
    }
}

/// Chooses the instant of a role among those of a local reading.
pub fn pick(found: LocalInstants, is_start: bool) -> (instant: Result<i64, ParseFailure>)
    ensures
        instant == pick_instant(found, is_start),
{
    match found {
        LocalInstants::Nonexistent => Err(ParseFailure::NonexistentLocalTime),
        LocalInstants::Single(at) => Ok(at),
        LocalInstants::Ambiguous(early, late) => if is_start {
            Ok(early)
        } else {
            Ok(late)
        },
    }
}

/// Reads a date-time text on the clock of the zone `name`.
pub fn zoned_instant(stamp: &str, name: &str, is_start: bool) -> (instant: Result<
    i64,
    ParseFailure,
>)
    ensures
        instant == zoned_resolution(stamp@, name@, is_start),
        zone_exists(name@) ==> (twofold(stamp@, name@) matches Some((early, late)) ==> early
            <= late && instant == Ok::<i64, ParseFailure>(
            if is_start {
                early
            } else {
                late
            },
        )),
{
    if !is_zone_name(name) {
        return Err(ParseFailure::UnknownZone);
    }
    match read_wall_clock(stamp, DT_FMT) {
        None => Err(ParseFailure::InvalidFormat),
        Some(clock) => match local_instants(
            name,
            clock.year,
            clock.month,
            clock.day,
            clock.hour,
            clock.minute,
            clock.second,
        ) {
            Some(found) => pick(found, is_start),
            None => Err(ParseFailure::UnknownZone),
        },
    }
}

/// Whether a value is read on the clock of a zone where one is named.
pub fn is_zoned_form(raw: &str) -> (zoned: bool)
    ensures
        zoned == reads_zone(raw@),
{
    let value = raw.to_uppercase();
    let length = value.as_str().unicode_len();
    length != 8 && (length == 0 || value.as_str().get_char(length - 1) != 'Z')
}

/// Resolves the value `raw` with the zone parameter `zone` to an instant, for
/// the start of an event (`is_start`) or its end.
pub fn resolve(raw: &str, zone: Option<&str>, is_start: bool) -> (instant: Result<
    i64,
    ParseFailure,
>)
    ensures
        instant == resolution(
            raw@,
            match zone {
                Some(name) => Some(name@),
                None => None,
            },
            is_start,
        ),
        zone matches Some(name) ==> reads_zone(raw@) && zone_exists(name@) ==> (twofold(
            uppercase(raw@),
            name@,
        ) matches Some((early, late)) ==> early <= late && instant == Ok::<i64, ParseFailure>(
            if is_start {
                early
            } else {
                late
            },
        )),
{
    let value = raw.to_uppercase();
    let length = value.as_str().unicode_len();
    if length == 8 {
        let stamp = value.concat(
            if is_start {
                DAY_START
            } else {
                DAY_END
            },
        );
        return utc_instant(stamp.as_str());
    }
    if length > 0 && value.as_str().get_char(length - 1) == 'Z' {
        let bare = value.as_str().substring_char(0, length - 1);
        return utc_instant(bare);
    }
    match zone {
        Some(name) => zoned_instant(value.as_str(), name, is_start),
        None => utc_instant(value.as_str()),
    }
}

} // verus!
