//! The list of work days of a configuration: day numbers and ranges of them,
//! separated by commas, as in `1-5` or `1,3-5`. Monday is 1, Sunday is 7.

use std::collections::HashSet;
use vstd::prelude::*;
use vstd::string::*;

use crate::text::{decimal_i8, parse_i8, pieces, split};

verus! {

broadcast use vstd::std_specs::hash::group_hash_axioms;

/// What a list of work days looks like, for messages.
pub const ERR_FMT: &'static str =
    "a workday string like '1-5' or '1,3,5' or '1,3-5' (numbers 1-7 only)";

/// Separates the entries of the list.
pub const ENTRY_SEPARATOR: char = ',';

/// Separates the two ends of a range.
pub const RANGE_SEPARATOR: char = '-';

/// Why a text is no list of work days.
#[derive(Debug)]
pub enum WorkdayError {
    /// The text is empty.
    Empty,
    /// A number is no day of the week.
    OutOfRange(i8),
    /// An entry is neither a number nor a range of two numbers.
    Malformed(String),
}

/// What a `WorkdayError` holds.
pub enum WorkdayFault {
    Empty,
    OutOfRange(i8),
    Malformed(Seq<char>),
}

impl View for WorkdayError {
    type V = WorkdayFault;

    open spec fn view(&self) -> WorkdayFault {
        match self {
            WorkdayError::Empty => WorkdayFault::Empty,
            WorkdayError::OutOfRange(day) => WorkdayFault::OutOfRange(*day),
            WorkdayError::Malformed(entry) => WorkdayFault::Malformed(entry@),
        }
    }
}

/// Whether a number is a day of the week.
pub open spec fn is_weekday_number(day: i8) -> bool {
    1 <= day <= 7
}

/// The days from `low` to `high`, both included.
pub open spec fn day_range(low: i8, high: i8) -> Set<i8> {
    Set::new(|day: i8| low <= day <= high)
}

/// The days that a range from `start` to `end` names, whichever of the two
/// is the smaller.
pub open spec fn days_between(start: i8, end: i8) -> Set<i8> {
    if start <= end {
        day_range(start, end)
    } else {
        day_range(end, start)
    }
}

/// The days that one entry names.
///
/// An entry that reads as a number names that day. Any other entry has to be
/// two numbers with one `-` between them, and names the days from the smaller
/// to the larger. Each number has to be a day of the week; of two that are
/// not, the first is reported.
pub open spec fn days_of_entry(entry: Seq<char>) -> Result<Set<i8>, WorkdayFault> {
    match decimal_i8(entry) {
        Some(day) => if is_weekday_number(day) {
            Ok(set![day])
        } else {
            Err(WorkdayFault::OutOfRange(day))
        },
        None => {
            let ends = pieces(entry, RANGE_SEPARATOR);
            if ends.len() != 2 {
                Err(WorkdayFault::Malformed(entry))
            } else {
                match (decimal_i8(ends[0]), decimal_i8(ends[1])) {
                    (Some(start), Some(end)) => if !is_weekday_number(start) {
                        Err(WorkdayFault::OutOfRange(start))
                    } else if !is_weekday_number(end) {
                        Err(WorkdayFault::OutOfRange(end))
                    } else {
                        Ok(days_between(start, end))
                    },
                    _ => Err(WorkdayFault::Malformed(entry)),
                }
            }
        },
    }
}

/// The days that a list of entries names: those of all entries together, or
/// the fault of the first entry that has one.
pub open spec fn days_of_entries(entries: Seq<Seq<char>>) -> Result<Set<i8>, WorkdayFault>
    decreases entries.len(),
{
    if entries.len() == 0 {
        Ok(Set::empty())
    } else {
        match days_of_entries(entries.drop_last()) {
            Err(fault) => Err(fault),
            Ok(days) => match days_of_entry(entries.last()) {
                Err(fault) => Err(fault),
                Ok(more) => Ok(days.union(more)),
            },
        }
    }
}

/// The work days that a text names.
pub open spec fn workdays_of(text: Seq<char>) -> Result<Set<i8>, WorkdayFault> {
    if text.len() == 0 {
        Err(WorkdayFault::Empty)
    } else {
        days_of_entries(pieces(text, ENTRY_SEPARATOR))
    }
}

/// What a parsed list holds: the days of a set, or the fault of an error.
pub open spec fn outcome(parsed: Result<HashSet<i8>, WorkdayError>) -> Result<
    Set<i8>,
    WorkdayFault,
> {
    match parsed {
        Ok(days) => Ok(days@),
        Err(error) => Err(error@),
    }
}

/// Accepts the numbers 1 to 7.
pub fn weekday_check(x: i8) -> (checked: Result<i8, WorkdayError>)
    ensures
        match checked {
            Ok(day) => day == x && is_weekday_number(x),
            Err(error) => error@ == WorkdayFault::OutOfRange(x) && !is_weekday_number(x),
        },
{
    if x < 1 || x > 7 {
        return Err(WorkdayError::OutOfRange(x));
    }
    Ok(x)
}

/// Adds the days from `low` to `high` to `days`.
fn insert_range(days: &mut HashSet<i8>, low: i8, high: i8)
    requires
        low <= high < 127,
    ensures
        final(days)@ == old(days)@.union(day_range(low, high)),
{
    let ghost before = days@;
    let mut day = low;
    while day <= high
        invariant
            low <= day <= high + 1,
            high < 127,
            days@ == before.union(Set::new(|d: i8| low <= d < day)),
        decreases high - day + 1,
    {
        days.insert(day);
        assert(before.union(Set::new(|d: i8| low <= d < day)).insert(day) == before.union(
            Set::new(|d: i8| low <= d < day + 1),
        ));
        day += 1;
    }
}

/// Adds the days that one entry names to `days`, or reports its fault and
/// leaves `days` as they are.
fn insert_entry(days: &mut HashSet<i8>, entry: &str) -> (done: Result<(), WorkdayError>)
    ensures
        match done {
            Ok(_) => days_of_entry(entry@) is Ok && final(days)@ == old(days)@.union(
                days_of_entry(entry@)->Ok_0,
            ),
            Err(error) => days_of_entry(entry@) == Err::<Set<i8>, WorkdayFault>(error@)
                && final(days)@ == old(days)@,
        },
{
    match parse_i8(entry) {
        Some(day) => {
            match weekday_check(day) {
                Ok(valid) => {
                    days.insert(valid);
                    Ok(())
                },
                Err(error) => Err(error),
            }
        },
        None => {
            let ends = split(entry, RANGE_SEPARATOR);
            if ends.len() != 2 {
                return Err(WorkdayError::Malformed(entry.to_owned()));
            }
            let start = match parse_i8(ends[0].as_str()) {
                Some(number) => number,
                None => {
                    return Err(WorkdayError::Malformed(entry.to_owned()));
                },
            };
            let end = match parse_i8(ends[1].as_str()) {
                Some(number) => number,
                None => {
                    return Err(WorkdayError::Malformed(entry.to_owned()));
                },
            };
            match weekday_check(start) {
                Ok(_) => {},
                Err(error) => {
                    return Err(error);
                },
            }
            match weekday_check(end) {
                Ok(_) => {},
                Err(error) => {
                    return Err(error);
                },
            }
            if start <= end {
                insert_range(days, start, end);
            } else {
                insert_range(days, end, start);
            }
            Ok(())
        },
    }
}

/// Reads a list of work days.
pub fn parse_workday(v: &str) -> (parsed: Result<HashSet<i8>, WorkdayError>)
    ensures
        outcome(parsed) == workdays_of(v@),
        parsed matches Ok(days) ==> forall|day: i8| days@.contains(day) ==> is_weekday_number(day),
{
    if v.is_empty() {
        return Err(WorkdayError::Empty);
    }
    let entries = split(v, ENTRY_SEPARATOR);
    let ghost all = entries.deep_view();
    let mut days: HashSet<i8> = HashSet::new();
    let mut i: usize = 0;
    while i < entries.len()
        invariant
            i <= entries.len(),
            v@.len() != 0,
            all == entries.deep_view(),
            all == pieces(v@, ENTRY_SEPARATOR),
            days_of_entries(all.take(i as int)) == Ok::<Set<i8>, WorkdayFault>(days@),
            forall|day: i8| days@.contains(day) ==> is_weekday_number(day),
        decreases entries.len() - i,
    {
        proof {
            let upto = all.take(i + 1);
            assert(upto.drop_last() == all.take(i as int));
            lemma_days_of_entry_are_weekdays(entries[i as int]@);
        }
        match insert_entry(&mut days, entries[i].as_str()) {
            Ok(_) => {},
            Err(error) => {
                proof {
                    lemma_fault_stays(all, i + 1);
                }
                return Err(error);
            },
        }
        i += 1;
    }
    assert(all.take(i as int) == all);
    Ok(days)
}

/// The days that an entry names are days of the week.
pub proof fn lemma_days_of_entry_are_weekdays(entry: Seq<char>)
    ensures
        days_of_entry(entry) matches Ok(days) ==> forall|day: i8|
            days.contains(day) ==> is_weekday_number(day),
{
}

/// A fault among the first entries of a list is the fault of the whole list.
pub proof fn lemma_fault_stays(entries: Seq<Seq<char>>, upto: int)
    requires
        0 <= upto <= entries.len(),
        days_of_entries(entries.take(upto)) is Err,
    ensures
        days_of_entries(entries) == days_of_entries(entries.take(upto)),
    decreases entries.len() - upto,
{
    if upto < entries.len() {
        let next = entries.take(upto + 1);
        assert(next.drop_last() == entries.take(upto));
        lemma_fault_stays(entries, upto + 1);
    } else {
        assert(entries.take(upto) == entries);
    }
}

} // verus!
