use choliday::event::{DayType, Event};

fn texts(items: &[&str]) -> Vec<String> {
    items.iter().map(|s| s.to_string()).collect()
}

fn event_with(summary: &str, description: Option<&str>) -> Event {
    let mut event = Event::new();
    event.set_summary(summary);
    if let Some(text) = description {
        event.set_description(text.to_string());
    }
    event
}

#[test]
fn summary_with_rest_pattern_is_rest() {
    let event = event_with("Company Holiday", None);
    let day = event.day_type(&texts(&["Work"]), &texts(&["Holiday"]));
    assert_eq!(day, DayType::RestDay);
}

#[test]
fn summary_with_both_patterns_is_conflict() {
    let event = event_with("On-call Work Holiday", None);
    let day = event.day_type(&texts(&["Work"]), &texts(&["Holiday"]));
    assert_eq!(day, DayType::ConflictDay);
}

#[test]
fn summary_with_work_pattern_is_work() {
    let event = event_with("Extra Work shift", Some("Holiday for everyone else"));
    let day = event.day_type(&texts(&["Work"]), &texts(&["Holiday"]));
    assert_eq!(day, DayType::WorkDay);
}

#[test]
fn summary_without_pattern_and_without_description_is_normal() {
    let event = event_with("Dentist", None);
    let day = event.day_type(&texts(&["Work"]), &texts(&["Holiday"]));
    assert_eq!(day, DayType::NormalDay);
}

#[test]
fn description_is_read_when_summary_matches_nothing() {
    let work = texts(&["Work"]);
    let rest = texts(&["Holiday"]);
    assert_eq!(event_with("Dentist", Some("Holiday")).day_type(&work, &rest), DayType::RestDay);
    assert_eq!(event_with("Dentist", Some("Work")).day_type(&work, &rest), DayType::WorkDay);
    assert_eq!(
        event_with("Dentist", Some("Work on a Holiday")).day_type(&work, &rest),
        DayType::ConflictDay
    );
    assert_eq!(event_with("Dentist", Some("Teeth")).day_type(&work, &rest), DayType::NormalDay);
}

#[test]
fn summary_and_description_are_never_joined() {
    // Work in the summary, Holiday in the description: the summary decides alone.
    let event = event_with("Work", Some("Holiday"));
    assert_eq!(event.day_type(&texts(&["Work"]), &texts(&["Holiday"])), DayType::WorkDay);
}

#[test]
fn any_pattern_of_a_list_counts() {
    let work = texts(&["Overtime", "Shift"]);
    let rest = texts(&["Vacation", "Holiday"]);
    assert_eq!(event_with("Night Shift", None).day_type(&work, &rest), DayType::WorkDay);
    assert_eq!(event_with("Bank Holiday", None).day_type(&work, &rest), DayType::RestDay);
}

#[test]
fn matching_is_by_substring_and_case() {
    let work = texts(&["Work"]);
    let rest = texts(&["Holiday"]);
    assert_eq!(event_with("Homework", None).day_type(&work, &rest), DayType::NormalDay);
    assert_eq!(event_with("HomeWork", None).day_type(&work, &rest), DayType::WorkDay);
    assert_eq!(event_with("holiday", None).day_type(&work, &rest), DayType::NormalDay);
}

#[test]
fn order_and_repetition_of_patterns_do_not_matter() {
    let events = [
        event_with("On-call Work Holiday", None),
        event_with("Dentist", Some("Holiday")),
        event_with("Night Shift", Some("Vacation")),
        event_with("Lunch", None),
    ];
    for event in &events {
        let day = event.day_type(&texts(&["Work", "Shift"]), &texts(&["Holiday", "Vacation"]));
        let again = event.day_type(
            &texts(&["Shift", "Work", "Shift"]),
            &texts(&["Vacation", "Vacation", "Holiday"]),
        );
        assert_eq!(day, again);
    }
}

#[test]
fn empty_pattern_matches_every_text() {
    let event = event_with("", None);
    assert_eq!(event.day_type(&texts(&[""]), &texts(&["x"])), DayType::WorkDay);
    assert_eq!(event.day_type(&texts(&[""]), &texts(&[""])), DayType::ConflictDay);
}

#[test]
fn empty_pattern_lists_match_nothing() {
    let none: Vec<String> = Vec::new();
    assert_eq!(event_with("Work Holiday", Some("Work")).day_type(&none, &none), DayType::NormalDay);
}

#[test]
fn classification_is_repeatable() {
    let event = event_with("On-call Work Holiday", Some("x"));
    let work = texts(&["Work"]);
    let rest = texts(&["Holiday"]);
    let first = event.day_type(&work, &rest);
    let second = event.day_type(&work, &rest);
    assert_eq!(first, second);
    assert!(matches!(
        first,
        DayType::NormalDay | DayType::WorkDay | DayType::RestDay | DayType::ConflictDay
    ));
}

#[test]
fn new_event_is_empty() {
    let event = Event::new();
    assert_eq!(event.summary(), "");
    assert_eq!(event.description(), None);
    assert_eq!(event.dtstart(), 0);
    assert_eq!(event.dtend(), 0);
}

#[test]
fn setters_change_one_field() {
    let mut event = Event::new();
    event.set_summary("Standup");
    event.set_description("Daily".to_string());
    event.set_dtstart(10);
    event.set_dtend(20);
    assert_eq!(event.summary(), "Standup");
    assert_eq!(event.description(), Some("Daily"));
    assert_eq!(event.dtstart(), 10);
    assert_eq!(event.dtend(), 20);
    let copy = event.clone();
    assert_eq!(copy.summary(), "Standup");
    assert_eq!(copy.description(), Some("Daily"));
    assert_eq!(copy.dtstart(), 10);
    assert_eq!(copy.dtend(), 20);
}

#[test]
fn contains_timestamp_is_half_open() {
    let mut event = Event::new();
    event.set_dtstart(100);
    event.set_dtend(200);
    assert!(!event.contains_timestamp(99));
    assert!(event.contains_timestamp(100));
    assert!(event.contains_timestamp(199));
    assert!(!event.contains_timestamp(200));
    assert!(!event.contains_timestamp(201));
}

#[test]
fn zero_length_event_contains_nothing() {
    let mut event = Event::new();
    event.set_dtstart(100);
    event.set_dtend(100);
    assert!(!event.contains_timestamp(100));
    assert!(!event.contains_timestamp(99));
}

#[test]
fn contains_timestamp_agrees_with_the_bounds() {
    let bounds: [(i64, i64); 4] = [(0, 0), (-5, 5), (7, 3), (i64::MIN, i64::MAX)];
    let instants: [i64; 7] = [i64::MIN, -5, 0, 3, 5, 7, i64::MAX];
    for (start, end) in bounds {
        let mut event = Event::new();
        event.set_dtstart(start);
        event.set_dtend(end);
        for at in instants {
            assert_eq!(event.contains_timestamp(at), start <= at && at < end);
        }
    }
}
