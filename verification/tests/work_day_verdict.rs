use std::collections::HashSet;

use choliday::choliday::Choliday;
use choliday::conf::{Base, Calnedar, Conf, Predict, Priority};
use choliday::moment::{parse_date, read_moment, settle_today, DateError, Moment, Today, HELP_MSG};

const CHRISTMAS: &str = "BEGIN:VCALENDAR\n\
BEGIN:VEVENT\n\
SUMMARY:Christmas Holiday\n\
DTSTART;VALUE=DATE:20241225\n\
DTEND;VALUE=DATE:20241225\n\
END:VEVENT\n\
BEGIN:VEVENT\n\
SUMMARY:Saturday Work\n\
DTSTART:20240106T000000Z\n\
DTEND:20240107T000000Z\n\
END:VEVENT\n\
BEGIN:VEVENT\n\
SUMMARY:Work on a Holiday\n\
DTSTART:20240108T000000Z\n\
DTEND:20240109T000000Z\n\
END:VEVENT\n\
END:VCALENDAR\n";

fn plain_conf(work_days: Option<&[i8]>, rule: Priority) -> Conf {
    Conf::new(
        work_days.map(|days| Base::new(days.iter().copied().collect::<HashSet<i8>>())),
        Some(Calnedar::new(Some(vec!["team.ics".to_string()]))),
        Predict::new(vec!["Work".to_string()], vec!["Holiday".to_string()], rule),
    )
}

fn moment_at(millis: i64) -> Moment {
    read_moment(&millis.to_string()).unwrap()
}

fn verdict_at(millis: i64, work_days: Option<&[i8]>, payload: Option<&str>) -> bool {
    let date = moment_at(millis);
    let mut judge = Choliday::new(&plain_conf(work_days, Priority::WorkOverRest), date);
    assert!(!judge.is_loaded());
    assert_eq!(judge.sources(), &["team.ics".to_string()][..]);
    judge.read_events(&vec![payload.map(|p| p.as_bytes().to_vec())]);
    assert!(judge.is_loaded());
    judge.is_work_day()
}

#[test]
fn moment_of_milliseconds_knows_the_weekday() {
    let moment = moment_at(0);
    assert_eq!(moment.millis(), 0);
    assert_eq!(moment.weekday(), 4);
    let moment = moment_at(1_700_000_000_000);
    assert_eq!(moment.millis(), 1_700_000_000_000);
    assert_eq!(moment.weekday(), 2);
    assert_eq!(moment_at(1_704_542_400_000).weekday(), 6);
    assert_eq!(moment_at(-1).weekday(), 3);
}

#[test]
fn milliseconds_beyond_the_calendar_give_no_moment() {
    assert!(matches!(read_moment(&i64::MAX.to_string()), Err(DateError::Unrecognized)));
    assert!(matches!(read_moment(&i64::MIN.to_string()), Err(DateError::Unrecognized)));
}

#[test]
fn read_moment_takes_a_date_with_time() {
    let moment = read_moment("20241225143000").unwrap();
    assert_eq!(moment.millis(), 1_735_137_000_000);
    assert_eq!(moment.weekday(), 3);
}

#[test]
fn read_moment_takes_milliseconds() {
    let moment = read_moment("1700000000000").unwrap();
    assert_eq!(moment.millis(), 1_700_000_000_000);
    assert_eq!(moment.weekday(), 2);
    let moment = read_moment("-86400000").unwrap();
    assert_eq!(moment.millis(), -86_400_000);
    assert_eq!(moment.weekday(), 3);
}

#[test]
fn read_moment_takes_signed_milliseconds() {
    let moment = read_moment("+86400000").unwrap();
    assert_eq!(moment.millis(), 86_400_000);
    assert_eq!(moment.weekday(), 5);
    let moment = read_moment("0").unwrap();
    assert_eq!(moment.millis(), 0);
    assert_eq!(moment.weekday(), 4);
    assert!(matches!(read_moment("1e3"), Err(DateError::Unrecognized)));
    assert!(matches!(read_moment("-"), Err(DateError::Unrecognized)));
}

#[test]
fn read_moment_takes_eight_digits_as_milliseconds() {
    // A date alone has no time of day, so the digits count as milliseconds.
    let moment = read_moment("20241225").unwrap();
    assert_eq!(moment.millis(), 20_241_225);
    assert_eq!(moment.weekday(), 4);
}

#[test]
fn read_moment_rejects_other_texts() {
    assert!(matches!(read_moment("tomorrow"), Err(DateError::Unrecognized)));
    assert!(matches!(read_moment(""), Err(DateError::Unrecognized)));
    assert!(matches!(read_moment("2024-12-25"), Err(DateError::Unrecognized)));
    assert!(matches!(read_moment("9223372036854775807"), Err(DateError::Unrecognized)));
    assert!(matches!(read_moment("99999999999999999999"), Err(DateError::Unrecognized)));
}

#[test]
fn parse_date_reads_texts_other_than_today() {
    assert_eq!(parse_date("20241225143000").unwrap().millis(), 1_735_137_000_000);
    assert_eq!(parse_date("1700000000000").unwrap().weekday(), 2);
    assert!(matches!(parse_date("Today"), Err(DateError::Unrecognized)));
}

#[test]
fn parse_date_today_is_the_last_second_of_a_day() {
    let moment = parse_date("today").unwrap();
    assert_eq!(moment.millis().rem_euclid(86_400_000), 86_399_000);
    assert!(1 <= moment.weekday() && moment.weekday() <= 7);
    assert_eq!(moment_at(moment.millis()).weekday(), moment.weekday());
}

#[test]
fn settle_today_takes_the_later_of_two() {
    let early = moment_at(1_000);
    let late = moment_at(2_000);
    assert_eq!(settle_today(Today::Once(early)).unwrap().millis(), 1_000);
    assert_eq!(settle_today(Today::Twice(early, late)).unwrap().millis(), 2_000);
    assert!(matches!(settle_today(Today::Skipped), Err(DateError::NoSuchLocalTime)));
    assert!(matches!(settle_today(Today::InvalidTime), Err(DateError::InvalidTime)));
}

#[test]
fn date_errors_have_messages() {
    assert_eq!(DateError::InvalidTime.message(), "Failed to create today time 23:59:59");
    assert_eq!(DateError::NoSuchLocalTime.message(), "Invalid date/time combination");
    assert_eq!(DateError::Unrecognized.message(), HELP_MSG);
    assert!(HELP_MSG.starts_with("Date format must be one of: \"YYYYmmDD\""));
}

#[test]
fn rest_event_makes_a_rest_day() {
    // 2024-12-25 is a Wednesday.
    assert!(!verdict_at(1_735_128_000_000, None, Some(CHRISTMAS)));
    assert!(!verdict_at(1_735_128_000_000, Some(&[1, 2, 3, 4, 5]), Some(CHRISTMAS)));
}

#[test]
fn work_event_makes_a_work_day() {
    // 2024-01-06 is a Saturday.
    assert!(verdict_at(1_704_542_400_000, None, Some(CHRISTMAS)));
    assert!(verdict_at(1_704_542_400_000, Some(&[1, 2, 3, 4, 5]), Some(CHRISTMAS)));
}

#[test]
fn conflict_is_settled_by_the_rule() {
    // 2024-01-08 is a Monday with an event that matches both pattern lists.
    let monday = moment_at(1_704_715_200_000);
    for (rule, works) in [
        (Priority::WorkOverRest, true),
        (Priority::RestOverWork, false),
        (Priority::KeepCurrent, true),
        (Priority::UseLatest, true),
    ] {
        let mut judge = Choliday::new(&plain_conf(None, rule), monday);
        judge.read_events(&vec![Some(CHRISTMAS.as_bytes().to_vec())]);
        assert_eq!(judge.is_work_day(), works);
    }
}

#[test]
fn without_events_the_weekday_decides() {
    // Saturday, Monday, Sunday.
    assert!(!verdict_at(1_704_542_400_000, None, None));
    assert!(verdict_at(1_704_715_200_000, None, None));
    assert!(!verdict_at(1_704_542_400_000 + 86_400_000, None, None));
    // Events of other days do not count: 2024-12-26 is a Thursday.
    assert!(verdict_at(1_735_200_000_000, None, Some(CHRISTMAS)));
}

#[test]
fn configured_work_days_replace_monday_to_friday() {
    // Saturday is configured, Monday is not.
    assert!(verdict_at(1_704_542_400_000, Some(&[6, 7]), None));
    assert!(!verdict_at(1_704_715_200_000, Some(&[6, 7]), None));
    assert!(!verdict_at(1_704_715_200_000, Some(&[]), None));
}

#[test]
fn is_weekday_reads_the_day_of_the_week() {
    let saturday = moment_at(1_704_542_400_000);
    let monday = moment_at(1_704_715_200_000);
    assert!(!Choliday::new(&plain_conf(None, Priority::KeepCurrent), saturday).is_weekday());
    assert!(Choliday::new(&plain_conf(None, Priority::KeepCurrent), monday).is_weekday());
    assert!(Choliday::new(&plain_conf(Some(&[6]), Priority::KeepCurrent), saturday).is_weekday());
    assert!(!Choliday::new(&plain_conf(Some(&[6]), Priority::KeepCurrent), monday).is_weekday());
}
