use choliday::conf::Priority;
use choliday::event::DayType::{ConflictDay, NormalDay, RestDay, WorkDay};
use choliday::event::{DayType, Event};
use choliday::priority::{any_rest, any_work, classify_all, decide, judge};

const ALL_RULES: [Priority; 4] =
    [Priority::WorkOverRest, Priority::RestOverWork, Priority::KeepCurrent, Priority::UseLatest];

fn pattern_list(items: &[&str]) -> Vec<String> {
    items.iter().map(|s| s.to_string()).collect()
}

fn timed_event(summary: &str, start: i64, end: i64) -> Event {
    let mut event = Event::new();
    event.set_summary(summary);
    event.set_dtstart(start);
    event.set_dtend(end);
    event
}

#[test]
fn nothing_left_is_normal_under_every_rule() {
    let none: Vec<DayType> = Vec::new();
    for rule in ALL_RULES {
        assert_eq!(decide(&none, rule), NormalDay);
    }
}

#[test]
fn work_over_rest_with_rest_and_conflict_is_work() {
    assert_eq!(decide(&vec![RestDay, ConflictDay], Priority::WorkOverRest), WorkDay);
}

#[test]
fn work_over_rest_with_rest_only_is_rest() {
    assert_eq!(decide(&vec![RestDay], Priority::WorkOverRest), RestDay);
    assert_eq!(decide(&vec![RestDay, RestDay, RestDay], Priority::WorkOverRest), RestDay);
}

#[test]
fn work_over_rest_with_work_anywhere_is_work() {
    assert_eq!(decide(&vec![RestDay, RestDay, WorkDay], Priority::WorkOverRest), WorkDay);
    assert_eq!(decide(&vec![WorkDay, RestDay], Priority::WorkOverRest), WorkDay);
}

#[test]
fn rest_over_work_mirrors_work_over_rest() {
    assert_eq!(decide(&vec![WorkDay, ConflictDay], Priority::RestOverWork), RestDay);
    assert_eq!(decide(&vec![WorkDay, RestDay], Priority::RestOverWork), RestDay);
    assert_eq!(decide(&vec![WorkDay], Priority::RestOverWork), WorkDay);
    assert_eq!(decide(&vec![WorkDay, WorkDay], Priority::RestOverWork), WorkDay);
}

#[test]
fn keep_current_reads_the_first() {
    assert_eq!(decide(&vec![RestDay, WorkDay, ConflictDay], Priority::KeepCurrent), RestDay);
    assert_eq!(decide(&vec![WorkDay, RestDay], Priority::KeepCurrent), WorkDay);
    assert_eq!(decide(&vec![ConflictDay, RestDay], Priority::KeepCurrent), WorkDay);
}

#[test]
fn keep_current_ignores_the_order_of_later_elements() {
    let orders = [
        vec![RestDay, WorkDay, ConflictDay, RestDay],
        vec![RestDay, ConflictDay, WorkDay, RestDay],
        vec![RestDay, RestDay, WorkDay, ConflictDay],
        vec![RestDay, RestDay, ConflictDay, WorkDay],
    ];
    for order in &orders {
        assert_eq!(decide(order, Priority::KeepCurrent), RestDay);
    }
    let orders = [vec![WorkDay, RestDay, ConflictDay], vec![WorkDay, ConflictDay, RestDay]];
    for order in &orders {
        assert_eq!(decide(order, Priority::KeepCurrent), WorkDay);
    }
}

#[test]
fn use_latest_reads_the_last() {
    assert_eq!(decide(&vec![WorkDay, WorkDay, RestDay], Priority::UseLatest), RestDay);
    assert_eq!(decide(&vec![RestDay, WorkDay], Priority::UseLatest), WorkDay);
    assert_eq!(decide(&vec![RestDay, ConflictDay], Priority::UseLatest), WorkDay);
}

#[test]
fn any_work_and_any_rest_count_conflicts() {
    assert!(any_work(&vec![RestDay, ConflictDay]));
    assert!(any_rest(&vec![WorkDay, ConflictDay]));
    assert!(!any_work(&vec![RestDay, RestDay]));
    assert!(!any_rest(&vec![WorkDay]));
    assert!(!any_work(&Vec::new()));
    assert!(!any_rest(&Vec::new()));
}

#[test]
fn classify_all_drops_normal_days_and_keeps_order() {
    let events = vec![
        timed_event("Holiday", 0, 10),
        timed_event("Dentist", 0, 10),
        timed_event("Work", 0, 10),
        timed_event("Work on Holiday", 0, 10),
    ];
    let days = classify_all(&events, None, &pattern_list(&["Work"]), &pattern_list(&["Holiday"]));
    assert_eq!(days, vec![RestDay, WorkDay, ConflictDay]);
}

#[test]
fn classify_all_selects_by_instant() {
    let events = vec![
        timed_event("Holiday", 0, 10),
        timed_event("Work", 10, 20),
        timed_event("Holiday", 5, 15),
    ];
    let work = pattern_list(&["Work"]);
    let rest = pattern_list(&["Holiday"]);
    assert_eq!(classify_all(&events, Some(5), &work, &rest), vec![RestDay, RestDay]);
    assert_eq!(classify_all(&events, Some(10), &work, &rest), vec![WorkDay, RestDay]);
    assert_eq!(classify_all(&events, Some(20), &work, &rest), Vec::<DayType>::new());
}

#[test]
fn judge_goes_by_position_and_not_by_time() {
    // The later event in time stands first in the list.
    let events = vec![timed_event("Work", 50, 100), timed_event("Holiday", 0, 100)];
    let work = pattern_list(&["Work"]);
    let rest = pattern_list(&["Holiday"]);
    assert_eq!(judge(&events, Some(60), Priority::KeepCurrent, &work, &rest), WorkDay);
    assert_eq!(judge(&events, Some(60), Priority::UseLatest, &work, &rest), RestDay);
    assert_eq!(judge(&events, Some(60), Priority::WorkOverRest, &work, &rest), WorkDay);
    assert_eq!(judge(&events, Some(60), Priority::RestOverWork, &work, &rest), RestDay);
    // At 10 only the rest event covers the instant.
    assert_eq!(judge(&events, Some(10), Priority::KeepCurrent, &work, &rest), RestDay);
    // At 100 nothing covers the instant.
    for rule in ALL_RULES {
        assert_eq!(judge(&events, Some(100), rule, &work, &rest), NormalDay);
    }
}

#[test]
fn judge_of_only_normal_events_is_normal() {
    let events = vec![timed_event("Dentist", 0, 10), timed_event("Lunch", 0, 10)];
    for rule in ALL_RULES {
        let day = judge(&events, None, rule, &pattern_list(&["Work"]), &pattern_list(&["Holiday"]));
        assert_eq!(day, NormalDay);
    }
}
