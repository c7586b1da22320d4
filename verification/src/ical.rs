//! The analyzer: a configuration and the events read for it.
//!
//! Fetching stays outside: the caller reads each configured source and hands
//! in what it got.

use vstd::prelude::*;
use vstd::string::*;

use crate::conf::{Conf, ConfView, Priority};
use crate::event::{keeper, DayType, Event, EventView};
use crate::parser::{
    calendar_blocks, events_from_blocks, events_of_blocks, law_filter_commutes_with_reading,
    read_blocks,
};
use crate::priority::{judge, judgement, law_filter_once_is_enough};
use crate::text::starts_with;

verus! {

/// How a source that is fetched over the network begins.
pub const REMOTE_PREFIX: &'static str = "http";

/// What an `Ical` holds: its configuration and, once read, its events.
pub struct IcalView {
    pub conf: ConfView,
    pub events: Option<Seq<EventView>>,
}

/// Analyzer of the calendars of one configuration. The events are read once
/// and kept.
pub struct Ical {
    conf: Conf,
    events: Option<Vec<Event>>,
}

impl View for Ical {
    type V = IcalView;

    closed spec fn view(&self) -> IcalView {
        IcalView { conf: self.conf@, events: self.events.deep_view() }
    }
}

/// The events of a payload that pass the filter.
pub open spec fn events_of_payload(bytes: Seq<u8>, filter: Option<i64>) -> Seq<EventView> {
    events_of_blocks(calendar_blocks(bytes), filter)
}

/// The events that the payload of one source gives: none where the source
/// could not be read.
pub open spec fn events_of_source(payload: Option<Seq<u8>>, filter: Option<i64>) -> Seq<
    EventView,
> {
    match payload {
        Some(bytes) => events_of_payload(bytes, filter),
        None => Seq::empty(),
    }
}

/// The events of the payloads of all sources that pass the filter, source by
/// source.
pub open spec fn events_of_payloads(payloads: Seq<Option<Seq<u8>>>, filter: Option<i64>) -> Seq<
    EventView,
> {
    payloads.map_values(|payload: Option<Seq<u8>>| events_of_source(payload, filter)).flatten()
}

/// One more source adds its events at the end.
pub proof fn lemma_payloads_push(
    payloads: Seq<Option<Seq<u8>>>,
    payload: Option<Seq<u8>>,
    filter: Option<i64>,
)
    ensures
        events_of_payloads(payloads.push(payload), filter) == events_of_payloads(payloads, filter)
            + events_of_source(payload, filter),
{
    let read = |payload: Option<Seq<u8>>| events_of_source(payload, filter);
    payloads.lemma_push_map_commute(read, payload);
    payloads.map_values(read).lemma_flatten_push(events_of_source(payload, filter));
}

/// A source that could not be read changes nothing for the others: the
/// events of one source that was read beside one that was not are the events
/// of the first alone, in either order of the two.
pub proof fn law_failed_source_gives_nothing(bytes: Seq<u8>, filter: Option<i64>)
    ensures
        events_of_payloads(seq![Some(bytes), None], filter) == events_of_payload(bytes, filter),
        events_of_payloads(seq![None, Some(bytes)], filter) == events_of_payload(bytes, filter),
{
    let none: Seq<Option<Seq<u8>>> = Seq::empty();
    lemma_payloads_push(none, Some(bytes), filter);
    lemma_payloads_push(none, None, filter);
    lemma_payloads_push(none.push(Some(bytes)), None, filter);
    lemma_payloads_push(none.push(None), Some(bytes), filter);
    assert(none.push(Some(bytes)).push(None) == seq![Some(bytes), None]);
    assert(none.push(None).push(Some(bytes)) == seq![None, Some(bytes)]);
}

/// To read only the events that cover an instant and to judge them at that
/// instant is to judge all events of the payloads at that instant.
pub proof fn law_filter_while_reading(
    payloads: Seq<Option<Seq<u8>>>,
    filter: Option<i64>,
    priority: Priority,
    work: Seq<Seq<char>>,
    rest: Seq<Seq<char>>,
)
    ensures
        events_of_payloads(payloads, filter) == events_of_payloads(payloads, None).filter(
            keeper(filter),
        ),
        judgement(events_of_payloads(payloads, filter), filter, priority, work, rest) == judgement(
            events_of_payloads(payloads, None),
            filter,
            priority,
            work,
            rest,
        ),
    decreases payloads.len(),
{
    reveal(Seq::filter);
    if payloads.len() > 0 {
        let front = payloads.drop_last();
        let last = payloads.last();
        assert(front.push(last) == payloads);
        law_filter_while_reading(front, filter, priority, work, rest);
        lemma_payloads_push(front, last, filter);
        lemma_payloads_push(front, last, None);
        match last {
            Some(bytes) => {
                law_filter_commutes_with_reading(calendar_blocks(bytes), filter);
            },
            None => {},
        }
        Seq::filter_distributes_over_add(
            events_of_payloads(front, None),
            events_of_source(last, None),
            keeper(filter),
        );
    }
    law_filter_once_is_enough(events_of_payloads(payloads, None), filter, work, rest);
}

/// The sources that a configuration names: none where it names none.
pub open spec fn sources_of(conf: ConfView) -> Seq<Seq<char>> {
    match conf.sources {
        Some(list) => list,
        None => Seq::empty(),
    }
}

/// Whether a source is fetched over the network, which it is where it begins
/// with `http`; any other source is the path of a file.
pub fn is_remote(source: &str) -> (remote: bool)
    ensures
        remote == REMOTE_PREFIX@.is_prefix_of(source@),
{
    starts_with(source, REMOTE_PREFIX)
}

impl Ical {
    /// An analyzer for `conf` that has read no events yet.
    pub fn new(conf: Conf) -> (ical: Ical)
        ensures
            ical@ == (IcalView { conf: conf@, events: None }),
    {
        Ical { conf, events: None }
    }

    /// The sources to read, in the order of the configuration.
    pub fn sources(&self) -> (sources: &[String])
        ensures
            sources.deep_view() == sources_of(self@.conf),
    {
        match self.conf.get_describe_calendar() {
            Some(list) => list,
            None => &[],
        }
    }

    /// Whether the events have been read.
    pub fn is_loaded(&self) -> (loaded: bool)
        ensures
            loaded == self@.events is Some,
    {
        self.events.is_some()
    }

    /// The events, once they have been read.
    pub fn events(&self) -> (events: Option<&Vec<Event>>)
        ensures
            events.deep_view() == self@.events,
    {
        self.events.as_ref()
    }

    /// The events of one payload that pass the filter.
    pub fn parse_calendar(bytes: &[u8], filter: Option<i64>) -> (events: Vec<Event>)
        ensures
            events.deep_view() == events_of_payload(bytes@, filter),
    {
        let blocks = read_blocks(bytes);
        events_from_blocks(&blocks, filter)
    }

    /// Reads the events from the payloads of the sources, one payload for
    /// each source in order and `None` for a source that could not be read,
    /// and keeps those that pass the filter. Events read before are replaced.
    pub fn read_events(&mut self, payloads: &Vec<Option<Vec<u8>>>, dest_day_ts: Option<i64>)
        ensures
            final(self)@ == (IcalView {
                conf: old(self)@.conf,
                events: Some(events_of_payloads(payloads.deep_view(), dest_day_ts)),
            }),
    {
        let ghost all = payloads.deep_view();
        let mut all_events: Vec<Event> = Vec::new();
        let mut i: usize = 0;
        while i < payloads.len()
            invariant
                i <= payloads.len(),
                all == payloads.deep_view(),
                all_events.deep_view() == events_of_payloads(all.take(i as int), dest_day_ts),
            decreases payloads.len() - i,
        {
            proof {
                all.lemma_take_succ_push(i as int);
                lemma_payloads_push(
                    all.take(i as int),
                    payloads[i as int].deep_view(),
                    dest_day_ts,
                );
            }
            match &payloads[i] {
                Some(bytes) => {
                    let mut events = Ical::parse_calendar(bytes.as_slice(), dest_day_ts);
                    assert(bytes.deep_view() == bytes@);
                    all_events.append(&mut events);
                },
                None => {},
            }
            i += 1;
        }
        assert(all.take(i as int) == all);
        self.events = Some(all_events);
    }

    /// The day that the events make at the instant `dest_day_ts`, or at any
    /// time where there is none, under the patterns and the priority rule of
    /// the configuration.
    pub fn judge_by_priority(&self, dest_day_ts: Option<i64>) -> (day: DayType)
        requires
            self@.events is Some,
        ensures
            day == judgement(
                self@.events->0,
                dest_day_ts,
                self@.conf.predict.priority,
                self@.conf.predict.work,
                self@.conf.predict.rest,
            ),
    {
        match &self.events {
            Some(events) => judge(
                events,
                dest_day_ts,
                *self.conf.priority(),
                self.conf.predict_work().as_slice(),
                self.conf.predict_rest().as_slice(),
            ),
            None => DayType::NormalDay,
        }
    }
}

} // verus!
