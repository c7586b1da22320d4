//! Turns a calendar payload into events.
//!
//! The payload is split into calendar blocks, events and properties by the
//! `ical` crate. What an event is made of its properties, and which events of
//! a payload are kept, is decided here.

use vstd::prelude::*;
use vstd::string::*;

use crate::event::{keeper, kept, Event, EventView};
use crate::property::{parse_datetime, stamp_of, Property, PropertyView};
use crate::text::same_text;

verus! {

/// Name of the property that holds the summary of an event.
pub const KEY_SUMMARY: &'static str = "SUMMARY";

/// Name of the property that holds the start of an event.
pub const KEY_DTSTART: &'static str = "DTSTART";

/// Name of the property that holds the end of an event.
pub const KEY_DTEND: &'static str = "DTEND";

/// Name of the property that holds the description of an event.
pub const KEY_DESCRIPTION: &'static str = "DESCRIPTION";

/// Summary of an event that has none.
pub const NO_SUMMARY: &'static str = "NO_SUMMARY";

/// The events of one calendar block, each as the list of its properties.
pub type Block = Vec<Vec<Property>>;

/// The blocks that `ical::IcalParser` finds in a payload, in their order: for
/// each block the properties of its events, or `None` where the block is no
/// well-formed calendar.
pub uninterp spec fn calendar_blocks(bytes: Seq<u8>) -> Seq<Option<Seq<Seq<PropertyView>>>>;

/// Runs `ical::IcalParser` over the payload to its end and hands out, for each
/// calendar that it yields, the properties of the events in it, and `None`
/// for each error that it yields. The result depends on the bytes alone.
#[verifier::external_body]
pub(crate) fn read_blocks(bytes: &[u8]) -> (blocks: Vec<Option<Block>>)
    ensures
        blocks.deep_view() == calendar_blocks(bytes@),
{
    ::ical::IcalParser::new(bytes).map(
        |block|
            block.ok().map(
                |calendar|
                    calendar.events.into_iter().map(
                        |event|
                            event.properties.into_iter().map(
                                |p| Property { name: p.name, params: p.params, value: p.value },
                            ).collect(),
                    ).collect(),
            ),
    ).collect()
}

/// An event in the making, and whether an end was written for it.
pub struct Draft {
    pub event: EventView,
    pub has_end: bool,
}

/// The draft before any property is read: no end, no description, and the
/// summary of an event that has none.
pub open spec fn blank() -> Draft {
    Draft {
        event: EventView { summary: NO_SUMMARY@, description: None, start: 0, end: 0 },
        has_end: false,
    }
}

/// The draft after one more property.
///
/// A summary replaces the one before; without a value it is that of an event
/// that has none. A description with a value replaces the one before. A start
/// or an end that resolves replaces the one before; one that does not resolve
/// leaves the instant as it was.
pub open spec fn note(draft: Draft, property: PropertyView) -> Draft {
    if property.name == KEY_SUMMARY@ {
        Draft {
            event: EventView {
                summary: match property.value {
                    Some(text) => text,
                    None => NO_SUMMARY@,
                },
                ..draft.event
            },
            ..draft
        }
    } else if property.name == KEY_DESCRIPTION@ {
        match property.value {
            Some(text) => Draft {
                event: EventView { description: Some(text), ..draft.event },
                ..draft
            },
            None => draft,
        }
    } else if property.name == KEY_DTSTART@ {
        match stamp_of(property, true) {
            Ok(at) => Draft { event: EventView { start: at, ..draft.event }, ..draft },
            Err(_) => draft,
        }
    } else if property.name == KEY_DTEND@ {
        match stamp_of(property, false) {
            Ok(at) => Draft { event: EventView { end: at, ..draft.event }, has_end: true },
            Err(_) => Draft { has_end: true, ..draft },
        }
    } else {
        draft
    }
}

/// The draft after all of `properties`, read in their order.
pub open spec fn gather(properties: Seq<PropertyView>) -> Draft {
    properties.fold_left(blank(), |draft: Draft, property: PropertyView| note(draft, property))
}

/// The event that a list of properties makes: an event for which no end was
/// written ends where it starts.
pub open spec fn event_of(properties: Seq<PropertyView>) -> EventView {
    let draft = gather(properties);
    if draft.has_end {
        draft.event
    } else {
        EventView { end: draft.event.start, ..draft.event }
    }
}

/// The events of one block that pass the filter, in their order.
pub open spec fn events_of_block(block: Seq<Seq<PropertyView>>, filter: Option<i64>) -> Seq<
    EventView,
> {
    block.map_values(|properties: Seq<PropertyView>| event_of(properties)).filter(keeper(filter))
}

/// The events that one parsed block gives: none where it is no well-formed
/// calendar.
pub open spec fn events_of_parsed(
    block: Option<Seq<Seq<PropertyView>>>,
    filter: Option<i64>,
) -> Seq<EventView> {
    match block {
        Some(events) => events_of_block(events, filter),
        None => Seq::empty(),
    }
}

/// The events of all blocks that pass the filter, block by block.
pub open spec fn events_of_blocks(
    blocks: Seq<Option<Seq<Seq<PropertyView>>>>,
    filter: Option<i64>,
) -> Seq<EventView> {
    blocks.map_values(
        |block: Option<Seq<Seq<PropertyView>>>| events_of_parsed(block, filter),
    ).flatten()
}

/// One more property changes the draft by `note`.
pub proof fn lemma_gather_push(properties: Seq<PropertyView>, property: PropertyView)
    ensures
        gather(properties.push(property)) == note(gather(properties), property),
{
    assert(properties.push(property).drop_last() == properties);
}

/// One more event in a block is added at the end where it passes the filter.
pub proof fn lemma_block_push(
    block: Seq<Seq<PropertyView>>,
    properties: Seq<PropertyView>,
    filter: Option<i64>,
)
    ensures
        events_of_block(block.push(properties), filter) == if kept(event_of(properties), filter) {
            events_of_block(block, filter).push(event_of(properties))
        } else {
            events_of_block(block, filter)
        },
{
    let make = |properties: Seq<PropertyView>| event_of(properties);
    block.lemma_push_map_commute(make, properties);
    block.map_values(make).lemma_filter_push(event_of(properties), keeper(filter));
}

/// One more block adds its events at the end.
pub proof fn lemma_blocks_push(
    blocks: Seq<Option<Seq<Seq<PropertyView>>>>,
    block: Option<Seq<Seq<PropertyView>>>,
    filter: Option<i64>,
)
    ensures
        events_of_blocks(blocks.push(block), filter) == events_of_blocks(blocks, filter)
            + events_of_parsed(block, filter),
{
    let read = |block: Option<Seq<Seq<PropertyView>>>| events_of_parsed(block, filter);
    blocks.lemma_push_map_commute(read, block);
    blocks.map_values(read).lemma_flatten_push(events_of_parsed(block, filter));
}

/// To filter while reading is to filter what was read: the events of blocks
/// that pass a filter are those of all their events that pass it.
pub proof fn law_filter_commutes_with_reading(
    blocks: Seq<Option<Seq<Seq<PropertyView>>>>,
    filter: Option<i64>,
)
    ensures
        events_of_blocks(blocks, filter) == events_of_blocks(blocks, None).filter(keeper(filter)),
    decreases blocks.len(),
{
    reveal(Seq::filter);
    if blocks.len() > 0 {
        let front = blocks.drop_last();
        let last = blocks.last();
        assert(front.push(last) == blocks);
        law_filter_commutes_with_reading(front, filter);
        lemma_blocks_push(front, last, filter);
        lemma_blocks_push(front, last, None);
        let all_of_last = events_of_parsed(last, None);
        assert(events_of_parsed(last, filter) == all_of_last.filter(keeper(filter))) by {
            match last {
                Some(block) => {
                    let made = block.map_values(
                        |properties: Seq<PropertyView>| event_of(properties),
                    );
                    lemma_filter_keeps_all(made);
                },
                None => {},
            }
        }
        Seq::filter_distributes_over_add(
            events_of_blocks(front, None),
            all_of_last,
            keeper(filter),
        );
    }
}

/// Without a filter every event is kept.
proof fn lemma_filter_keeps_all(events: Seq<EventView>)
    ensures
        events.filter(keeper(None)) == events,
    decreases events.len(),
{
    reveal(Seq::filter);
    if events.len() > 0 {
        lemma_filter_keeps_all(events.drop_last());
    }
}

/// An event for which no end is written ends where it starts.
pub proof fn law_event_without_end(properties: Seq<PropertyView>)
    requires
        forall|i: int| 0 <= i < properties.len() ==> (#[trigger] properties[i]).name != KEY_DTEND@,
    ensures
        !gather(properties).has_end,
        event_of(properties).end == event_of(properties).start,
    decreases properties.len(),
{
    if properties.len() > 0 {
        let front = properties.drop_last();
        law_event_without_end(front);
        lemma_gather_push(front, properties.last());
    }
}

/// Makes the event that a list of properties describes.
pub fn event_from_properties(properties: &Vec<Property>) -> (event: Event)
    ensures
        event@ == event_of(properties.deep_view()),
{
    let ghost all = properties.deep_view();
    let mut event = Event::new();
    event.set_summary(NO_SUMMARY);
    let mut has_end = false;
    let mut i: usize = 0;
    while i < properties.len()
        invariant
            i <= properties.len(),
            all == properties.deep_view(),
            (Draft { event: event@, has_end }) == gather(all.take(i as int)),
        decreases properties.len() - i,
    {
        let property = &properties[i];
        proof {
            all.lemma_take_succ_push(i as int);
            lemma_gather_push(all.take(i as int), property@);
        }
        if same_text(property.name.as_str(), KEY_SUMMARY) {
            match &property.value {
                Some(text) => event.set_summary(text.as_str()),
                None => event.set_summary(NO_SUMMARY),
            }
        } else if same_text(property.name.as_str(), KEY_DESCRIPTION) {
            match &property.value {
                Some(text) => event.set_description(text.clone()),
                None => {},
            }
        } else if same_text(property.name.as_str(), KEY_DTSTART) {
            match parse_datetime(property, true) {
                Ok(at) => event.set_dtstart(at),
                Err(_) => {},
            }
        } else if same_text(property.name.as_str(), KEY_DTEND) {
            has_end = true;
            match parse_datetime(property, false) {
                Ok(at) => event.set_dtend(at),
                Err(_) => {},
            }
        }
        i += 1;
    }
    if !has_end {
        let start = event.dtstart();
        event.set_dtend(start);
    }
    event
}

/// Adds to `events` the events of one block that pass the filter.
pub fn collect_block(block: &Block, filter: Option<i64>, events: &mut Vec<Event>)
    ensures
        final(events).deep_view() == old(events).deep_view() + events_of_block(
            block.deep_view(),
            filter,
        ),
{
    let ghost all = block.deep_view();
    let ghost before = events.deep_view();
    let mut i: usize = 0;
    proof {
        reveal(Seq::filter);
    }
    while i < block.len()
        invariant
            i <= block.len(),
            all == block.deep_view(),
            events.deep_view() == before + events_of_block(all.take(i as int), filter),
        decreases block.len() - i,
    {
        let event = event_from_properties(&block[i]);
        proof {
            all.lemma_take_succ_push(i as int);
            lemma_block_push(all.take(i as int), block[i as int].deep_view(), filter);
        }
        let keep = match filter {
            Some(at) => event.contains_timestamp(at),
            None => true,
        };
        if keep {
            let ghost found = events_of_block(all.take(i as int), filter);
            let ghost so_far = events.deep_view();
            events.push(event);
            assert(so_far.push(event@) == before + found.push(event@));
        }
        i += 1;
    }
    assert(all.take(i as int) == all);
}

/// The events of parsed blocks that pass the filter. A block that is no
/// well-formed calendar gives no event.
pub fn events_from_blocks(blocks: &Vec<Option<Block>>, filter: Option<i64>) -> (events: Vec<Event>)
    ensures
        events.deep_view() == events_of_blocks(blocks.deep_view(), filter),
{
    let ghost all = blocks.deep_view();
    let mut events: Vec<Event> = Vec::new();
    let mut i: usize = 0;
    while i < blocks.len()
        invariant
            i <= blocks.len(),
            all == blocks.deep_view(),
            events.deep_view() == events_of_blocks(all.take(i as int), filter),
        decreases blocks.len() - i,
    {
        proof {
            all.lemma_take_succ_push(i as int);
            lemma_blocks_push(all.take(i as int), blocks[i as int].deep_view(), filter);
        }
        match &blocks[i] {
            Some(block) => collect_block(block, filter, &mut events),
            None => {},
        }
        i += 1;
    }
    assert(all.take(i as int) == all);
    events
}

} // verus!
