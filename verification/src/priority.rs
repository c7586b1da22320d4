//! Reduces the classifications of one day to a single verdict.

use vstd::prelude::*;

use crate::conf::Priority;
use crate::event::{classify, keeper, kept, DayType, Event, EventView};

verus! {

/// `RestDay` stays a rest day; `WorkDay` and `ConflictDay` count as work.
pub open spec fn rest_or_work(day: DayType) -> DayType {
    if day == DayType::RestDay {
        DayType::RestDay
    } else {
        DayType::WorkDay
    }
}

/// Some element of `days` is `WorkDay` or `ConflictDay`.
pub open spec fn mentions_work(days: Seq<DayType>) -> bool {
    exists|i: int|
        0 <= i < days.len() && (#[trigger] days[i] == DayType::WorkDay || days[i]
            == DayType::ConflictDay)
}

/// Some element of `days` is `RestDay` or `ConflictDay`.
pub open spec fn mentions_rest(days: Seq<DayType>) -> bool {
    exists|i: int|
        0 <= i < days.len() && (#[trigger] days[i] == DayType::RestDay || days[i]
            == DayType::ConflictDay)
}

/// The verdict of `priority` on the classifications `days`, in the order in
/// which their events were found.
pub open spec fn verdict(days: Seq<DayType>, priority: Priority) -> DayType {
    if days.len() == 0 {
        DayType::NormalDay
    } else {
        match priority {
            Priority::WorkOverRest => if mentions_work(days) {
                DayType::WorkDay
            } else {
                DayType::RestDay
            },
            Priority::RestOverWork => if mentions_rest(days) {
                DayType::RestDay
            } else {
                DayType::WorkDay
            },
            Priority::KeepCurrent => rest_or_work(days.first()),
            Priority::UseLatest => rest_or_work(days.last()),
        }
    }
}

/// The classification of an event under given patterns.
pub open spec fn classifier(work: Seq<Seq<char>>, rest: Seq<Seq<char>>) -> spec_fn(
    EventView,
) -> DayType {
    |event: EventView| classify(event, work, rest)
}

/// Whether a classification names the day as work or rest.
pub open spec fn is_settled() -> spec_fn(DayType) -> bool {
    |day: DayType| day != DayType::NormalDay
}

/// The classifications that are left of `events`: those of the events that
/// pass the filter, without the normal days, in the order of the events.
pub open spec fn remaining(
    events: Seq<EventView>,
    filter: Option<i64>,
    work: Seq<Seq<char>>,
    rest: Seq<Seq<char>>,
) -> Seq<DayType> {
    events.filter(keeper(filter)).map_values(classifier(work, rest)).filter(is_settled())
}

/// One more event adds its classification at the end where the event passes
/// the filter and is no normal day.
pub proof fn lemma_remaining_push(
    events: Seq<EventView>,
    event: EventView,
    filter: Option<i64>,
    work: Seq<Seq<char>>,
    rest: Seq<Seq<char>>,
)
    ensures
        remaining(events.push(event), filter, work, rest) == if kept(event, filter) && classify(
            event,
            work,
            rest,
        ) != DayType::NormalDay {
            remaining(events, filter, work, rest).push(classify(event, work, rest))
        } else {
            remaining(events, filter, work, rest)
        },
{
    let selected = events.filter(keeper(filter));
    events.lemma_filter_push(event, keeper(filter));
    if kept(event, filter) {
        selected.lemma_push_map_commute(classifier(work, rest), event);
        selected.map_values(classifier(work, rest)).lemma_filter_push(
            classify(event, work, rest),
            is_settled(),
        );
    }
}

/// The day that `events` make at the instant `filter`, or at any time where
/// there is none, under the patterns and the rule `priority`.
pub open spec fn judgement(
    events: Seq<EventView>,
    filter: Option<i64>,
    priority: Priority,
    work: Seq<Seq<char>>,
    rest: Seq<Seq<char>>,
) -> DayType {
    verdict(remaining(events, filter, work, rest), priority)
}

/// With nothing left to weigh the day is normal, whatever the rule.
pub proof fn law_nothing_left_is_normal(priority: Priority)
    ensures
        verdict(Seq::empty(), priority) == DayType::NormalDay,
{
}

/// Where something is left to weigh, the day is a work day or a rest day.
pub proof fn law_something_left_is_settled(days: Seq<DayType>, priority: Priority)
    requires
        days.len() > 0,
    ensures
        verdict(days, priority) == DayType::WorkDay || verdict(days, priority) == DayType::RestDay,
{
}

/// Under `WorkOverRest` one work day or conflict among what is left makes a
/// work day, and rest days alone make a rest day.
pub proof fn law_work_over_rest(days: Seq<DayType>)
    requires
        days.len() > 0,
    ensures
        mentions_work(days) ==> verdict(days, Priority::WorkOverRest) == DayType::WorkDay,
        (forall|i: int| 0 <= i < days.len() ==> days[i] == DayType::RestDay) ==> verdict(
            days,
            Priority::WorkOverRest,
        ) == DayType::RestDay,
{
}

/// Under `RestOverWork` one rest day or conflict among what is left makes a
/// rest day, and work days alone make a work day.
pub proof fn law_rest_over_work(days: Seq<DayType>)
    requires
        days.len() > 0,
    ensures
        mentions_rest(days) ==> verdict(days, Priority::RestOverWork) == DayType::RestDay,
        (forall|i: int| 0 <= i < days.len() ==> days[i] == DayType::WorkDay) ==> verdict(
            days,
            Priority::RestOverWork,
        ) == DayType::WorkDay,
{
}

/// Under `KeepCurrent` the first of what is left decides alone: two lists
/// that begin alike give the same day, however the rest is arranged.
pub proof fn law_keep_current_reads_first(left: Seq<DayType>, right: Seq<DayType>)
    requires
        left.len() > 0,
        right.len() > 0,
        left.first() == right.first(),
    ensures
        verdict(left, Priority::KeepCurrent) == verdict(right, Priority::KeepCurrent),
{
}

/// Under `UseLatest` the last of what is left decides alone.
pub proof fn law_use_latest_reads_last(left: Seq<DayType>, right: Seq<DayType>)
    requires
        left.len() > 0,
        right.len() > 0,
        left.last() == right.last(),
    ensures
        verdict(left, Priority::UseLatest) == verdict(right, Priority::UseLatest),
{
}

/// What is left of the events holds no normal day, and nothing but the
/// classifications of events that pass the filter.
pub proof fn law_remaining_is_classified(
    events: Seq<EventView>,
    filter: Option<i64>,
    work: Seq<Seq<char>>,
    rest: Seq<Seq<char>>,
)
    ensures
        remaining(events, filter, work, rest).len() <= events.len(),
        forall|i: int|
            0 <= i < remaining(events, filter, work, rest).len() ==> {
                &&& #[trigger] remaining(events, filter, work, rest)[i] != DayType::NormalDay
                &&& exists|j: int|
                    0 <= j < events.len() && kept(#[trigger] events[j], filter) && classify(
                        events[j],
                        work,
                        rest,
                    ) == remaining(events, filter, work, rest)[i]
            },
    decreases events.len(),
{
    if events.len() == 0 {
        reveal(Seq::filter);
    } else {
        let front = events.drop_last();
        assert(front.push(events.last()) == events);
        law_remaining_is_classified(front, filter, work, rest);
        lemma_remaining_push(front, events.last(), filter, work, rest);
        let left = remaining(events, filter, work, rest);
        assert forall|i: int| 0 <= i < left.len() implies {
            &&& #[trigger] left[i] != DayType::NormalDay
            &&& exists|j: int|
                0 <= j < events.len() && kept(#[trigger] events[j], filter) && classify(
                    events[j],
                    work,
                    rest,
                ) == left[i]
        } by {
            let before = remaining(front, filter, work, rest);
            if i < before.len() {
                let j = choose|j: int|
                    0 <= j < front.len() && kept(#[trigger] front[j], filter) && classify(
                        front[j],
                        work,
                        rest,
                    ) == before[i];
                assert(events[j] == front[j]);
            } else {
                assert(events[events.len() - 1] == events.last());
            }
        }
    }
}

/// Events that were already picked by the filter weigh as all events do: to
/// read only the events of an instant and to judge them at that instant is to
/// judge all events at that instant.
pub proof fn law_filter_once_is_enough(
    events: Seq<EventView>,
    filter: Option<i64>,
    work: Seq<Seq<char>>,
    rest: Seq<Seq<char>>,
)
    ensures
        remaining(events.filter(keeper(filter)), filter, work, rest) == remaining(
            events,
            filter,
            work,
            rest,
        ),
    decreases events.len(),
{
    reveal(Seq::filter);
    if events.len() > 0 {
        let front = events.drop_last();
        let last = events.last();
        law_filter_once_is_enough(front, filter, work, rest);
        front.lemma_filter_push(last, keeper(filter));
        lemma_remaining_push(front, last, filter, work, rest);
        if kept(last, filter) {
            lemma_remaining_push(front.filter(keeper(filter)), last, filter, work, rest);
        }
    }
}

/// Whether some element of `days` is `WorkDay` or `ConflictDay`.
pub fn any_work(days: &Vec<DayType>) -> (found: bool)
    ensures
        found == mentions_work(days@),
{
    let mut i: usize = 0;
    while i < days.len()
        invariant
            i <= days.len(),
            forall|j: int|
                0 <= j < i ==> days@[j] != DayType::WorkDay && days@[j] != DayType::ConflictDay,
        decreases days.len() - i,
    {
        if days[i] == DayType::WorkDay || days[i] == DayType::ConflictDay {
            return true;
        }
        i += 1;
    }
    false
}

/// Whether some element of `days` is `RestDay` or `ConflictDay`.
pub fn any_rest(days: &Vec<DayType>) -> (found: bool)
    ensures
        found == mentions_rest(days@),
{
    let mut i: usize = 0;
    while i < days.len()
        invariant
            i <= days.len(),
            forall|j: int|
                0 <= j < i ==> days@[j] != DayType::RestDay && days@[j] != DayType::ConflictDay,
        decreases days.len() - i,
    {
        if days[i] == DayType::RestDay || days[i] == DayType::ConflictDay {
            return true;
        }
        i += 1;
    }
    false
}

/// Applies `priority` to the classifications that are left of a day.
pub fn decide(days: &Vec<DayType>, priority: Priority) -> (day: DayType)
    ensures
        day == verdict(days@, priority),
{
    if days.len() == 0 {
        return DayType::NormalDay;
    }
    match priority {
        Priority::WorkOverRest => {
            if any_work(days) {
                DayType::WorkDay
            } else {
                DayType::RestDay
            }
        },
        Priority::RestOverWork => {
            if any_rest(days) {
                DayType::RestDay
            } else {
                DayType::WorkDay
            }
        },
        Priority::KeepCurrent => {
            if days[0] == DayType::RestDay {
                DayType::RestDay
            } else {
                DayType::WorkDay
            }
        },
        Priority::UseLatest => {
            if days[days.len() - 1] == DayType::RestDay {
                DayType::RestDay
            } else {
                DayType::WorkDay
            }
        },
    }
}

/// Classifies the events that pass the filter and keeps what is no normal day.
pub fn classify_all(
    events: &Vec<Event>,
    filter: Option<i64>,
    predict_work: &[String],
    predict_rest: &[String],
) -> (days: Vec<DayType>)
    ensures
        days@ == remaining(
            events.deep_view(),
            filter,
            predict_work.deep_view(),
            predict_rest.deep_view(),
        ),
{
    let ghost all = events.deep_view();
    let mut days: Vec<DayType> = Vec::new();
    let mut i: usize = 0;
    proof {
        reveal(Seq::filter);
        assert(remaining(
            all.take(0),
            filter,
            predict_work.deep_view(),
            predict_rest.deep_view(),
        ) == Seq::<DayType>::empty());
    }
    while i < events.len()
        invariant
            i <= events.len(),
            all == events.deep_view(),
            days@ == remaining(
                all.take(i as int),
                filter,
                predict_work.deep_view(),
                predict_rest.deep_view(),
            ),
        decreases events.len() - i,
    {
        proof {
            all.lemma_take_succ_push(i as int);
            lemma_remaining_push(
                all.take(i as int),
                events[i as int]@,
                filter,
                predict_work.deep_view(),
                predict_rest.deep_view(),
            );
        }
        let selected = match filter {
            Some(at) => events[i].contains_timestamp(at),
            None => true,
        };
        if selected {
            let day = events[i].day_type(predict_work, predict_rest);
            if day != DayType::NormalDay {
                days.push(day);
            }
        }
        i += 1;
    }
    assert(all.take(i as int) == all);
    days
}

/// The day that `events` make at the instant `filter`, or at any time where
/// there is none.
pub fn judge(
    events: &Vec<Event>,
    filter: Option<i64>,
    priority: Priority,
    predict_work: &[String],
    predict_rest: &[String],
) -> (day: DayType)
    ensures
        day == judgement(
            events.deep_view(),
            filter,
            priority,
            predict_work.deep_view(),
            predict_rest.deep_view(),
        ),
{
    let days = classify_all(events, filter, predict_work, predict_rest);
    decide(&days, priority)
}

} // verus!
