//! The verdict on one day: what the calendars say of it, and where they say
//! nothing, whether it is a work day of the week.

use std::collections::HashSet;
use vstd::prelude::*;

use crate::conf::Conf;
use crate::event::DayType;
use crate::ical::{events_of_payloads, sources_of, Ical, IcalView};
use crate::moment::{Moment, MomentView};
use crate::priority::judgement;

verus! {

broadcast use vstd::std_specs::hash::group_hash_axioms;

/// What a `Choliday` holds.
pub struct CholidayView {
    pub ical: IcalView,
    pub dt: MomentView,
    pub work_days: Option<Set<i8>>,
}

/// Judge of one day under one configuration.
pub struct Choliday {
    ical: Ical,
    dt: Moment,
    work_days: Option<HashSet<i8>>,
}

impl View for Choliday {
    type V = CholidayView;

    closed spec fn view(&self) -> CholidayView {
        CholidayView {
            ical: self.ical@,
            dt: self.dt@,
            work_days: match self.work_days {
                Some(days) => Some(days@),
                None => None,
            },
        }
    }
}

/// Whether a day of the week is a work day: one of the configured days, or
/// Monday to Friday where none are configured.
pub open spec fn weekday_works(weekday: u32, work_days: Option<Set<i8>>) -> bool {
    match work_days {
        Some(days) => days.contains(weekday as i8),
        None => weekday != 6 && weekday != 7,
    }
}

/// Whether work is done on a day that the calendars call `day`: a work day
/// and a conflict are work, a rest day is none, and a normal day goes by the
/// day of the week.
pub open spec fn works_on(day: DayType, weekday: u32, work_days: Option<Set<i8>>) -> bool {
    match day {
        DayType::NormalDay => weekday_works(weekday, work_days),
        DayType::WorkDay => true,
        DayType::RestDay => false,
        DayType::ConflictDay => true,
    }
}

impl Choliday {
    /// A judge of the moment `date` under `conf` that has read no events yet.
    pub fn new(conf: &Conf, date: Moment) -> (choliday: Choliday)
        ensures
            choliday@ == (CholidayView {
                ical: IcalView { conf: conf@, events: None },
                dt: date@,
                work_days: conf@.work_days,
            }),
    {
        Choliday { ical: Ical::new(conf.clone()), dt: date, work_days: conf.work_day() }
    }

    /// The sources to read, in the order of the configuration.
    pub fn sources(&self) -> (sources: &[String])
        ensures
            sources.deep_view() == sources_of(self@.ical.conf),
    {
        self.ical.sources()
    }

    /// Whether the events have been read.
    pub fn is_loaded(&self) -> (loaded: bool)
        ensures
            loaded == self@.ical.events is Some,
    {
        self.ical.is_loaded()
    }

    /// Reads the events that cover the moment from the payloads of the
    /// sources, one payload for each source in order and `None` for a source
    /// that could not be read.
    pub fn read_events(&mut self, payloads: &Vec<Option<Vec<u8>>>)
        ensures
            final(self)@ == (CholidayView {
                ical: IcalView {
                    conf: old(self)@.ical.conf,
                    events: Some(
                        events_of_payloads(payloads.deep_view(), Some(old(self)@.dt.millis)),
                    ),
                },
                ..old(self)@
            }),
    {
        let at = self.dt.millis();
        self.ical.read_events(payloads, Some(at));
    }

    /// Whether the day of the week of the moment is a work day.
    pub fn is_weekday(&self) -> (works: bool)
        ensures
            works == weekday_works(self@.dt.weekday, self@.work_days),
    {
        let weekday = self.dt.weekday();
        match &self.work_days {
            Some(days) => days.contains(&(weekday as i8)),
            None => weekday != 6 && weekday != 7,
        }
    }

    /// Whether work is done at the moment: as the events that cover it say
    /// under the priority rule, and by the day of the week where they say
    /// nothing.
    pub fn is_work_day(&self) -> (works: bool)
        requires
            self@.ical.events is Some,
        ensures
            works == works_on(
                judgement(
                    self@.ical.events->0,
                    Some(self@.dt.millis),
                    self@.ical.conf.predict.priority,
                    self@.ical.conf.predict.work,
                    self@.ical.conf.predict.rest,
                ),
                self@.dt.weekday,
                self@.work_days,
            ),
    {
        match self.ical.judge_by_priority(Some(self.dt.millis())) {
            DayType::NormalDay => self.is_weekday(),
            DayType::WorkDay => true,
            DayType::RestDay => false,
            DayType::ConflictDay => true,
        }
    }
}

} // verus!
