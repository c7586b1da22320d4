//! The moment for which a day is judged, and how it is read from the text of
//! a command-line argument.

use chrono::offset::LocalResult;
use chrono::{DateTime, Datelike, Local, NaiveTime};
use vstd::prelude::*;

use crate::datetime::{read_wall_clock, wall_clock_reading, WallClock};
use crate::text::{decimal_i64, parse_i64, same_text};

verus! {

/// Layout of a date: `YYYYMMDD`.
pub const DATE_FORMAT: &'static str = "%Y%m%d";

/// Layout of a date with a time of day: `YYYYMMDDHHMMSS`.
pub const DATETIME_FORMAT: &'static str = "%Y%m%d%H%M%S";

/// The text that stands for the end of the current day.
pub const DEFAULT_DATE_VALUE: &'static str = "today";

/// What to tell the user of the accepted forms of a date.
pub const HELP_MSG: &'static str =
    "Date format must be one of: \"YYYYmmDD\", \"YYYYmmDDHHMMss\" or UNIX timestamp(millisecond)\nLeave empty to use today at 23:59:59";

/// What a `Moment` holds.
pub struct MomentView {
    /// Milliseconds since the epoch of the wall-clock reading on a UTC clock.
    pub millis: i64,
    /// Day of the week of the reading, Monday = 1 to Sunday = 7.
    pub weekday: u32,
}

/// A wall-clock reading: its instant on a UTC clock and its day of the week.
#[derive(Clone, Copy, Debug)]
pub struct Moment {
    millis: i64,
    weekday: u32,
}

impl View for Moment {
    type V = MomentView;

    closed spec fn view(&self) -> MomentView {
        MomentView { millis: self.millis, weekday: self.weekday }
    }
}

/// Why the text of an argument gives no moment.
#[derive(Clone, Copy, Debug, PartialEq, Eq, Structural)]
pub enum DateError {
    /// The time of day asked of the current day is no time of day.
    InvalidTime,
    /// The local clock skips the time of day asked of the current day.
    NoSuchLocalTime,
    /// The text is no date, no date with a time of day and no number of
    /// milliseconds that has a date.
    Unrecognized,
}

impl DateError {
    /// What to tell the user of the error.
    pub fn message(&self) -> (text: &'static str)
        ensures
            text@ == match self {
                DateError::InvalidTime => "Failed to create today time 23:59:59"@,
                DateError::NoSuchLocalTime => "Invalid date/time combination"@,
                DateError::Unrecognized => HELP_MSG@,
            },
    {
        match self {
            DateError::InvalidTime => "Failed to create today time 23:59:59",
            DateError::NoSuchLocalTime => "Invalid date/time combination",
            DateError::Unrecognized => HELP_MSG,
        }
    }
}

/// What the local clock says of a time of day of the current day.
#[derive(Clone, Copy, Debug)]
pub enum Today {
    /// The hour, minute and second asked for are no time of day.
    InvalidTime,
    /// The clock springs forward over the time of day.
    Skipped,
    /// The clock shows the time of day once.
    Once(Moment),
    /// The clock is turned back and shows the time of day twice.
    Twice(Moment, Moment),
}

/// The day of the week, Monday = 1 to Sunday = 7, of the date that
/// `chrono::DateTime::from_timestamp_millis` gives a number of milliseconds;
/// `None` where it gives none.
pub uninterp spec fn weekday_of_millis(millis: i64) -> Option<u32>;

/// The moment of a wall-clock reading.
pub open spec fn moment_of_clock(clock: WallClock) -> MomentView {
    MomentView { millis: clock.utc_millis, weekday: clock.weekday }
}

/// The moment that the text of an argument spells: a date with a time of
/// day in one of the two layouts, or else a number of milliseconds.
pub open spec fn moment_of_text(text: Seq<char>) -> Result<MomentView, DateError> {
    match wall_clock_reading(text, DATE_FORMAT@) {
        Some(clock) => Ok(moment_of_clock(clock)),
        None => match wall_clock_reading(text, DATETIME_FORMAT@) {
            Some(clock) => Ok(moment_of_clock(clock)),
            None => match decimal_i64(text) {
                Some(millis) => match weekday_of_millis(millis) {
                    Some(weekday) => Ok(MomentView { millis, weekday }),
                    None => Err(DateError::Unrecognized),
                },
                None => Err(DateError::Unrecognized),
            },
        },
    }
}

/// The moment that a reading of the local clock gives: of two, the later.
pub open spec fn moment_of_today(today: Today) -> Result<MomentView, DateError> {
    match today {
        Today::InvalidTime => Err(DateError::InvalidTime),
        Today::Skipped => Err(DateError::NoSuchLocalTime),
        Today::Once(moment) => Ok(moment@),
        Today::Twice(_, later) => Ok(later@),
    }
}

/// What a parsed argument holds.
pub open spec fn parsed_view(parsed: Result<Moment, DateError>) -> Result<MomentView, DateError> {
    match parsed {
        Ok(moment) => Ok(moment@),
        Err(error) => Err(error),
    }
}

/// Calls `chrono::DateTime::from_timestamp_millis`, which gives a date to the
/// numbers in its range and to no other, and hands out the number together
/// with `Weekday::number_from_monday` of that date, which lies between 1 and
/// 7. The result depends on the number alone.
#[verifier::external_body]
pub(crate) fn moment_at(millis: i64) -> (moment: Option<Moment>)
    ensures
        match moment {
            Some(found) => found@.millis == millis && weekday_of_millis(millis) == Some(
                found@.weekday,
            ) && 1 <= found@.weekday <= 7,
            None => weekday_of_millis(millis) is None,
        },
{
    DateTime::from_timestamp_millis(millis).map(
        |at| Moment { millis, weekday: at.weekday().number_from_monday() },
    )
}

/// Asks `chrono::Local::now` for the current day and `DateTime::with_time`
/// for the given time of that day on the local clock. What comes back
/// depends on the clock and the zone of the machine; a weekday in it is
/// `Weekday::number_from_monday`, which lies between 1 and 7. `Local::now`
/// does not return on a machine whose clock is set before the epoch.
#[verifier::external_body]
pub(crate) fn local_today_at(hour: u32, minute: u32, second: u32) -> (today: Today)
    ensures
        today matches Today::Once(moment) ==> 1 <= moment@.weekday <= 7,
        today matches Today::Twice(early, late) ==> 1 <= early@.weekday <= 7 && 1
            <= late@.weekday <= 7,
{
    let Some(time) = NaiveTime::from_hms_opt(hour, minute, second) else {
        return Today::InvalidTime;
    };
    let read = |at: DateTime<Local>| {
        let wall = at.naive_local();
        Moment { millis: wall.and_utc().timestamp_millis(), weekday: wall.weekday().number_from_monday() }
    };
    match Local::now().with_time(time) {
        LocalResult::None => Today::Skipped,
        LocalResult::Single(at) => Today::Once(read(at)),
        LocalResult::Ambiguous(early, late) => Today::Twice(read(early), read(late)),
    }
}

impl Moment {
    /// The moment of a wall-clock reading whose weekday is a day of the week.
    fn of_clock(clock: WallClock) -> (moment: Moment)
        requires
            1 <= clock.weekday <= 7,
        ensures
            moment@ == moment_of_clock(clock),
    {
        Moment { millis: clock.utc_millis, weekday: clock.weekday }
    }

    /// Milliseconds since the epoch of the reading on a UTC clock.
    pub fn millis(&self) -> (millis: i64)
        ensures
            millis == self@.millis,
    {
        self.millis
    }

    /// Day of the week of the reading, Monday = 1 to Sunday = 7.
    pub fn weekday(&self) -> (weekday: u32)
        ensures
            weekday == self@.weekday,
            1 <= weekday <= 7,
    {
        proof {
            use_type_invariant(self);
        }
        self.weekday
    }

    #[verifier::type_invariant]
    spec fn weekday_is_a_day(self) -> bool {
        1 <= self.weekday <= 7
    }
}

/// Reads a date with a time of day, or else a number of milliseconds.
pub fn read_moment(value: &str) -> (parsed: Result<Moment, DateError>)
    ensures
        parsed_view(parsed) == moment_of_text(value@),
{
    match read_wall_clock(value, DATE_FORMAT) {
        Some(clock) => {
            return Ok(Moment::of_clock(clock));
        },
        None => {},
    }
    match read_wall_clock(value, DATETIME_FORMAT) {
        Some(clock) => {
            return Ok(Moment::of_clock(clock));
        },
        None => {},
    }
    match parse_i64(value) {
        Some(millis) => match moment_at(millis) {
            Some(moment) => Ok(moment),
            None => Err(DateError::Unrecognized),
        },
        None => Err(DateError::Unrecognized),
    }
}

/// Takes the moment from a reading of the local clock.
pub fn settle_today(today: Today) -> (parsed: Result<Moment, DateError>)
    ensures
        parsed_view(parsed) == moment_of_today(today),
{
    match today {
        Today::InvalidTime => Err(DateError::InvalidTime),
        Today::Skipped => Err(DateError::NoSuchLocalTime),
        Today::Once(moment) => Ok(moment),
        Today::Twice(_, later) => Ok(later),
    }
}

/// Reads the date argument: `today` is 23:59:59 of the current day on the
/// local clock, any other text a date with a time of day or a number of
/// milliseconds.
pub fn parse_date(value: &str) -> (parsed: Result<Moment, DateError>)
    ensures
        value@ != DEFAULT_DATE_VALUE@ ==> parsed_view(parsed) == moment_of_text(value@),
        value@ == DEFAULT_DATE_VALUE@ ==> !(parsed matches Err(DateError::Unrecognized)),
{
    if same_text(value, DEFAULT_DATE_VALUE) {
        settle_today(local_today_at(23, 59, 59))
    } else {
        read_moment(value)
    }
}

} // verus!
