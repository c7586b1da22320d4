//! Calendar events and their classification by text patterns.

use vstd::prelude::*;
use vstd::string::*;

use crate::text::{contains, is_substring};

verus! {

/// What the events of a day say about it.
#[derive(Clone, Copy, Debug, PartialEq, Eq, Structural)]
pub enum DayType {
    /// No event names the day as work or rest.
    NormalDay,
    /// The day is a work day.
    WorkDay,
    /// The day is a rest day.
    RestDay,
    /// Work and rest patterns both match.
    ConflictDay,
}

/// What an event holds: its texts and the instants that bound it, in
/// milliseconds since the epoch.
pub struct EventView {
    pub summary: Seq<char>,
    pub description: Option<Seq<char>>,
    pub start: i64,
    pub end: i64,
}

/// One event of a calendar.
#[derive(Debug)]
pub struct Event {
    summary: String,
    description: Option<String>,
    dtstart: i64,
    dtend: i64,
}

impl View for Event {
    type V = EventView;

    closed spec fn view(&self) -> EventView {
        EventView {
            summary: self.summary@,
            description: match self.description {
                Some(text) => Some(text@),
                None => None,
            },
            start: self.dtstart,
            end: self.dtend,
        }
    }
}

impl Clone for Event {
    fn clone(&self) -> (copy: Event)
        ensures
            copy@ == self@,
    {
        Event {
            summary: self.summary.clone(),
            description: match &self.description {
                Some(text) => Some(text.clone()),
                None => None,
            },
            dtstart: self.dtstart,
            dtend: self.dtend,
        }
    }
}

impl DeepView for Event {
    type V = EventView;

    open spec fn deep_view(&self) -> EventView {
        self@
    }
}

/// The instant `at` lies in the half-open interval of the event.
pub open spec fn covers(event: EventView, at: i64) -> bool {
    event.start <= at < event.end
}

/// Whether an event passes the filter: every event where there is none, else
/// those that cover the instant.
pub open spec fn kept(event: EventView, filter: Option<i64>) -> bool {
    match filter {
        Some(at) => covers(event, at),
        None => true,
    }
}

/// The test of `kept` for one filter.
pub open spec fn keeper(filter: Option<i64>) -> spec_fn(EventView) -> bool {
    |event: EventView| kept(event, filter)
}

/// Some pattern of `patterns` occurs in `text`.
pub open spec fn matches_any(text: Seq<char>, patterns: Seq<Seq<char>>) -> bool {
    exists|k: int| 0 <= k < patterns.len() && is_substring(#[trigger] patterns[k], text)
}

/// The day that hits on the work patterns and on the rest patterns make.
pub open spec fn day_of_hits(work: bool, rest: bool) -> DayType {
    if work && rest {
        DayType::ConflictDay
    } else if work {
        DayType::WorkDay
    } else if rest {
        DayType::RestDay
    } else {
        DayType::NormalDay
    }
}

/// The day that one text makes under the two pattern lists.
pub open spec fn classify_text(text: Seq<char>, work: Seq<Seq<char>>, rest: Seq<Seq<char>>) -> DayType {
    day_of_hits(matches_any(text, work), matches_any(text, rest))
}

/// The day that an event makes: that of its summary, and only where the
/// summary matches no pattern at all, that of its description.
pub open spec fn classify(event: EventView, work: Seq<Seq<char>>, rest: Seq<Seq<char>>) -> DayType {
    if classify_text(event.summary, work, rest) != DayType::NormalDay {
        classify_text(event.summary, work, rest)
    } else {
        match event.description {
            Some(text) => classify_text(text, work, rest),
            None => DayType::NormalDay,
        }
    }
}

/// Every event is exactly one of the four days under any patterns.
pub proof fn law_classify_is_one_day(event: EventView, work: Seq<Seq<char>>, rest: Seq<Seq<char>>)
    ensures
        ({
            let day = classify(event, work, rest);
            (if day == DayType::NormalDay {
                1int
            } else {
                0int
            }) + (if day == DayType::WorkDay {
                1int
            } else {
                0int
            }) + (if day == DayType::RestDay {
                1int
            } else {
                0int
            }) + (if day == DayType::ConflictDay {
                1int
            } else {
                0int
            }) == 1
        }),
{
}

/// The description is read only where the summary matches no pattern: an
/// event whose summary matches is classified as its summary alone.
pub proof fn law_summary_comes_first(event: EventView, work: Seq<Seq<char>>, rest: Seq<Seq<char>>)
    requires
        matches_any(event.summary, work) || matches_any(event.summary, rest),
    ensures
        classify(event, work, rest) == classify_text(event.summary, work, rest),
        classify(event, work, rest) == classify(
            EventView { description: None, ..event },
            work,
            rest,
        ),
{
}

/// The order of the patterns and their repetition do not matter: two lists
/// of the same patterns match the same texts and classify alike.
pub proof fn law_pattern_order_is_irrelevant(
    event: EventView,
    work: Seq<Seq<char>>,
    rest: Seq<Seq<char>>,
    work_again: Seq<Seq<char>>,
    rest_again: Seq<Seq<char>>,
)
    requires
        forall|pattern: Seq<char>| work.contains(pattern) <==> work_again.contains(pattern),
        forall|pattern: Seq<char>| rest.contains(pattern) <==> rest_again.contains(pattern),
    ensures
        classify(event, work, rest) == classify(event, work_again, rest_again),
{
    lemma_same_patterns_match_alike(event.summary, work, work_again);
    lemma_same_patterns_match_alike(event.summary, rest, rest_again);
    match event.description {
        Some(text) => {
            lemma_same_patterns_match_alike(text, work, work_again);
            lemma_same_patterns_match_alike(text, rest, rest_again);
        },
        None => {},
    }
}

/// Two lists of the same patterns match the same texts.
pub proof fn lemma_same_patterns_match_alike(
    text: Seq<char>,
    patterns: Seq<Seq<char>>,
    again: Seq<Seq<char>>,
)
    requires
        forall|pattern: Seq<char>| patterns.contains(pattern) <==> again.contains(pattern),
    ensures
        matches_any(text, patterns) == matches_any(text, again),
{
    if matches_any(text, patterns) {
        let k = choose|k: int| 0 <= k < patterns.len() && is_substring(#[trigger] patterns[k], text);
        assert(again.contains(patterns[k]));
        let j = choose|j: int| 0 <= j < again.len() && again[j] == patterns[k];
    }
    if matches_any(text, again) {
        let k = choose|k: int| 0 <= k < again.len() && is_substring(#[trigger] again[k], text);
        assert(patterns.contains(again[k]));
        let j = choose|j: int| 0 <= j < patterns.len() && patterns[j] == again[k];
    }
}

/// Whether some pattern of `patterns` occurs in `text`.
pub fn matches_any_of(text: &str, patterns: &[String]) -> (found: bool)
    ensures
        found == matches_any(text@, patterns.deep_view()),
{
    let mut k: usize = 0;
    while k < patterns.len()
        invariant
            k <= patterns.len(),
            forall|j: int| 0 <= j < k ==> !is_substring(#[trigger] patterns.deep_view()[j], text@),
        decreases patterns.len() - k,
    {
        assert(patterns.deep_view()[k as int] == patterns[k as int]@);
        if contains(text, patterns[k].as_str()) {
            return true;
        }
        k += 1;
    }
    false
}

/// Classifies one text under the two pattern lists.
pub fn day_type_of_text(text: &str, predict_work: &[String], predict_rest: &[String]) -> (day:
    DayType)
    ensures
        day == classify_text(text@, predict_work.deep_view(), predict_rest.deep_view()),
{
    let work = matches_any_of(text, predict_work);
    let rest = matches_any_of(text, predict_rest);
    if work && rest {
        DayType::ConflictDay
    } else if work {
        DayType::WorkDay
    } else if rest {
        DayType::RestDay
    } else {
        DayType::NormalDay
    }
}

impl Event {
    /// An event without texts that starts and ends at the epoch.
    pub fn new() -> (event: Event)
        ensures
            event@ == (EventView { summary: Seq::empty(), description: None, start: 0, end: 0 }),
    {
        Event { summary: String::new(), description: None, dtstart: 0, dtend: 0 }
    }

    /// Replaces the summary.
    pub fn set_summary(&mut self, summary: &str)
        ensures
            final(self)@ == (EventView { summary: summary@, ..old(self)@ }),
    {
        self.summary = summary.to_owned();
    }

    /// The summary.
    pub fn summary(&self) -> (summary: &str)
        ensures
            summary@ == self@.summary,
    {
        self.summary.as_str()
    }

    /// The description, if the event has one.
    pub fn description(&self) -> (description: Option<&str>)
        ensures
            match description {
                Some(text) => self@.description == Some(text@),
                None => self@.description is None,
            },
    {
        match &self.description {
            Some(text) => Some(text.as_str()),
            None => None,
        }
    }

    /// Gives the event a description.
    pub fn set_description(&mut self, desc: String)
        ensures
            final(self)@ == (EventView { description: Some(desc@), ..old(self)@ }),
    {
        self.description = Some(desc);
    }

    /// The instant at which the event starts.
    pub fn dtstart(&self) -> (at: i64)
        ensures
            at == self@.start,
    {
        self.dtstart
    }

    /// The instant at which the event ends.
    pub fn dtend(&self) -> (at: i64)
        ensures
            at == self@.end,
    {
        self.dtend
    }

    /// Moves the start of the event.
    pub fn set_dtstart(&mut self, dtstart: i64)
        ensures
            final(self)@ == (EventView { start: dtstart, ..old(self)@ }),
    {
        self.dtstart = dtstart;
    }

    /// Moves the end of the event.
    pub fn set_dtend(&mut self, dtend: i64)
        ensures
            final(self)@ == (EventView { end: dtend, ..old(self)@ }),
    {
        self.dtend = dtend;
    }

    /// Whether the instant `dt` lies in `[start, end)`.
    pub fn contains_timestamp(&self, dt: i64) -> (inside: bool)
        ensures
            inside == covers(self@, dt),
            inside <==> self@.start <= dt < self@.end,
    {
        self.dtstart <= dt && dt < self.dtend
    }

    /// Classifies the event under the work and rest patterns.
    pub fn day_type(&self, predict_work: &[String], predict_rest: &[String]) -> (day: DayType)
        ensures
            day == classify(self@, predict_work.deep_view(), predict_rest.deep_view()),
    {
        let by_summary = day_type_of_text(self.summary.as_str(), predict_work, predict_rest);
        if by_summary != DayType::NormalDay {
            return by_summary;
        }
        match &self.description {
            Some(text) => day_type_of_text(text.as_str(), predict_work, predict_rest),
            None => DayType::NormalDay,
        }
    }
}

} // verus!
