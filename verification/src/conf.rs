//! Configuration of the analysis: work days of the week, calendar sources,
//! patterns and the priority rule.

use std::collections::HashSet;
use vstd::prelude::*;

verus! {

/// Rule that settles a day on which work and rest events meet.
#[derive(Clone, Copy, Debug, PartialEq, Eq, Structural)]
pub enum Priority {
    /// A work event outweighs any rest event.
    WorkOverRest,
    /// A rest event outweighs any work event.
    RestOverWork,
    /// The first classified event decides.
    KeepCurrent,
    /// The last classified event decides.
    UseLatest,
}

/// Days of the week on which work is done, Monday = 1 to Sunday = 7.
#[derive(Debug)]
pub struct Base {
    workday: HashSet<i8>,
}

/// Patterns that mark an event as work or rest, and the rule for days that
/// have both.
#[derive(Debug)]
pub struct Predict {
    work: Vec<String>,
    rest: Vec<String>,
    priority: Priority,
}

/// Where the calendars come from: URLs and paths of files.
#[derive(Debug)]
pub struct Calnedar {
    source: Option<Vec<String>>,
}

/// The whole configuration.
#[derive(Debug)]
pub struct Conf {
    base: Option<Base>,
    calendar: Option<Calnedar>,
    predict: Predict,
}

/// What a `Predict` holds.
pub struct PredictView {
    pub work: Seq<Seq<char>>,
    pub rest: Seq<Seq<char>>,
    pub priority: Priority,
}

/// What a `Conf` holds.
pub struct ConfView {
    /// The configured work days, if any are configured.
    pub work_days: Option<Set<i8>>,
    /// The configured calendar sources, if any are configured.
    pub sources: Option<Seq<Seq<char>>>,
    /// The patterns and the priority rule.
    pub predict: PredictView,
}

impl View for Base {
    type V = Set<i8>;

    closed spec fn view(&self) -> Set<i8> {
        self.workday@
    }
}

impl View for Predict {
    type V = PredictView;

    closed spec fn view(&self) -> PredictView {
        PredictView {
            work: self.work.deep_view(),
            rest: self.rest.deep_view(),
            priority: self.priority,
        }
    }
}

impl View for Calnedar {
    type V = Option<Seq<Seq<char>>>;

    closed spec fn view(&self) -> Option<Seq<Seq<char>>> {
        self.source.deep_view()
    }
}

impl View for Conf {
    type V = ConfView;

    closed spec fn view(&self) -> ConfView {
        ConfView {
            work_days: match self.base {
                Some(base) => Some(base@),
                None => None,
            },
            sources: match self.calendar {
                Some(calendar) => calendar@,
                None => None,
            },
            predict: self.predict@,
        }
    }
}

/// `HashSet::clone` on a set of day numbers: the copy holds the same numbers.
#[verifier::external_body]
fn copy_days(days: &HashSet<i8>) -> (copy: HashSet<i8>)
    ensures
        copy@ == days@,
{
    days.clone()
}

/// A copy of a list of texts.
fn copy_texts(texts: &Vec<String>) -> (copy: Vec<String>)
    ensures
        copy.deep_view() == texts.deep_view(),
{
    let mut copy: Vec<String> = Vec::new();
    let mut i: usize = 0;
    while i < texts.len()
        invariant
            i <= texts.len(),
            copy.len() == i,
            forall|j: int| 0 <= j < i ==> copy[j]@ == texts[j]@,
        decreases texts.len() - i,
    {
        copy.push(texts[i].clone());
        i += 1;
    }
    copy
}

impl Clone for Predict {
    fn clone(&self) -> (copy: Predict)
        ensures
            copy@ == self@,
    {
        Predict {
            work: copy_texts(&self.work),
            rest: copy_texts(&self.rest),
            priority: self.priority,
        }
    }
}

impl Clone for Calnedar {
    fn clone(&self) -> (copy: Calnedar)
        ensures
            copy@ == self@,
    {
        Calnedar {
            source: match &self.source {
                Some(list) => Some(copy_texts(list)),
                None => None,
            },
        }
    }
}

impl Clone for Conf {
    fn clone(&self) -> (copy: Conf)
        ensures
            copy@ == self@,
    {
        Conf {
            base: match &self.base {
                Some(base) => Some(base.clone()),
                None => None,
            },
            calendar: match &self.calendar {
                Some(calendar) => Some(calendar.clone()),
                None => None,
            },
            predict: self.predict.clone(),
        }
    }
}

impl Clone for Base {
    fn clone(&self) -> (copy: Base)
        ensures
            copy@ == self@,
    {
        Base { workday: copy_days(&self.workday) }
    }
}

impl Base {
    /// The work days `workday`.
    pub fn new(workday: HashSet<i8>) -> (base: Base)
        ensures
            base@ == workday@,
    {
        Base { workday }
    }
}

impl Predict {
    /// The patterns `work` and `rest` under the rule `priority`.
    pub fn new(work: Vec<String>, rest: Vec<String>, priority: Priority) -> (predict: Predict)
        ensures
            predict@ == (PredictView {
                work: work.deep_view(),
                rest: rest.deep_view(),
                priority,
            }),
    {
        Predict { work, rest, priority }
    }
}

impl Calnedar {
    /// The calendar sources `source`.
    pub fn new(source: Option<Vec<String>>) -> (calendar: Calnedar)
        ensures
            calendar@ == source.deep_view(),
    {
        Calnedar { source }
    }
}

impl Conf {
    /// A configuration of its three sections.
    pub fn new(base: Option<Base>, calendar: Option<Calnedar>, predict: Predict) -> (conf: Conf)
        ensures
            conf@ == (ConfView {
                work_days: match base {
                    Some(b) => Some(b@),
                    None => None,
                },
                sources: match calendar {
                    Some(c) => c@,
                    None => None,
                },
                predict: predict@,
            }),
    {
        Conf { base, calendar, predict }
    }

    /// The calendar sources, if any are configured.
    pub fn get_describe_calendar(&self) -> (sources: Option<&[String]>)
        ensures
            match sources {
                Some(list) => self@.sources == Some(list.deep_view()),
                None => self@.sources is None,
            },
    {
        match &self.calendar {
            Some(calendar) => match &calendar.source {
                Some(list) => {
                    let slice = list.as_slice();
                    Some(slice)
                },
                None => None,
            },
            None => None,
        }
    }

    /// The rule for days that have work and rest events.
    pub fn priority(&self) -> (priority: &Priority)
        ensures
            *priority == self@.predict.priority,
    {
        &self.predict.priority
    }

    /// The patterns that mark an event as work.
    pub fn predict_work(&self) -> (patterns: &Vec<String>)
        ensures
            patterns.deep_view() == self@.predict.work,
    {
        &self.predict.work
    }

    /// The patterns that mark an event as rest.
    pub fn predict_rest(&self) -> (patterns: &Vec<String>)
        ensures
            patterns.deep_view() == self@.predict.rest,
    {
        &self.predict.rest
    }

    /// The configured work days, if any are configured.
    pub fn work_day(&self) -> (days: Option<HashSet<i8>>)
        ensures
            match days {
                Some(set) => self@.work_days == Some(set@),
                None => self@.work_days is None,
            },
    {
        match &self.base {
            Some(base) => Some(copy_days(&base.workday)),
            None => None,
        }
    }
}

} // verus!
