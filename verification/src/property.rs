//! Properties of a calendar component and the values they carry.

use vstd::prelude::*;
use vstd::string::*;

use crate::datetime::{
    is_zone_name, is_zoned_form, reads_zone, resolution, resolve, zone_exists, ParseFailure,
};
use crate::text::{same_text, uppercase};

verus! {

/// Name of the parameter that names the time zone of a date-time value.
pub const PARAM_TZID: &'static str = "TZID";

/// One content line of a calendar component: `NAME;PARAM=a,b:value`.
#[derive(Debug)]
pub struct Property {
    /// Name of the property, as written.
    pub name: String,
    /// Parameters in the order written, each with its values.
    pub params: Option<Vec<(String, Vec<String>)>>,
    /// Text behind the colon, if there is any.
    pub value: Option<String>,
}

/// The characters of a property.
pub struct PropertyView {
    pub name: Seq<char>,
    pub params: Option<Seq<(Seq<char>, Seq<Seq<char>>)>>,
    pub value: Option<Seq<char>>,
}

impl View for Property {
    type V = PropertyView;

    open spec fn view(&self) -> PropertyView {
        PropertyView {
            name: self.name@,
            params: self.params.deep_view(),
            value: self.value.deep_view(),
        }
    }
}

impl DeepView for Property {
    type V = PropertyView;

    open spec fn deep_view(&self) -> PropertyView {
        self@
    }
}

/// Whether a parameter names a time zone: its name is `TZID` in any case and
/// it has a value.
pub open spec fn names_zone(param: (Seq<char>, Seq<Seq<char>>)) -> bool {
    uppercase(param.0) == PARAM_TZID@ && param.1.len() > 0
}

/// The zone that the first zone parameter of `params` names.
pub open spec fn first_zone(params: Seq<(Seq<char>, Seq<Seq<char>>)>) -> Option<Seq<char>>
    decreases params.len(),
{
    if params.len() == 0 {
        None
    } else if names_zone(params[0]) {
        Some(params[0].1[0])
    } else {
        first_zone(params.drop_first())
    }
}

/// The zone parameter of a property, if it has one.
pub open spec fn zone_param(params: Option<Seq<(Seq<char>, Seq<Seq<char>>)>>) -> Option<
    Seq<char>,
> {
    match params {
        Some(list) => first_zone(list),
        None => None,
    }
}

/// Some zone parameter of the list names a zone that does not exist.
pub open spec fn some_zone_unknown(params: Seq<(Seq<char>, Seq<Seq<char>>)>) -> bool {
    exists|i: int|
        0 <= i < params.len() && names_zone(#[trigger] params[i]) && !zone_exists(params[i].1[0])
}

/// Some zone parameter of a property names a zone that does not exist.
pub open spec fn names_unknown_zone(params: Option<Seq<(Seq<char>, Seq<Seq<char>>)>>) -> bool {
    match params {
        Some(list) => some_zone_unknown(list),
        None => false,
    }
}

/// The instant that the date-time property `property` stands for: that of
/// its value with its first zone parameter.
///
/// A malformed value that would be read on the clock of a zone is reported
/// as an unknown zone where any zone parameter of the property names a zone
/// that does not exist.
pub open spec fn stamp_of(property: PropertyView, is_start: bool) -> Result<i64, ParseFailure> {
    match property.value {
        Some(raw) => {
            let plain = resolution(raw, zone_param(property.params), is_start);
            if plain == Err::<i64, ParseFailure>(ParseFailure::InvalidFormat) && reads_zone(raw)
                && names_unknown_zone(property.params) {
                Err(ParseFailure::UnknownZone)
            } else {
                plain
            }
        },
        None => Err(ParseFailure::MissingValue),
    }
}

/// A property whose value is well-formed, or whose zone parameters all name
/// zones that exist, stands for the instant of its value with its first zone
/// parameter.
pub proof fn law_first_zone_decides(property: PropertyView, raw: Seq<char>, is_start: bool)
    requires
        property.value == Some(raw),
        resolution(raw, zone_param(property.params), is_start) != Err::<i64, ParseFailure>(
            ParseFailure::InvalidFormat,
        ) || !names_unknown_zone(property.params),
    ensures
        stamp_of(property, is_start) == resolution(raw, zone_param(property.params), is_start),
{
}

/// The characters of an optional text.
pub open spec fn text_of(text: Option<&str>) -> Option<Seq<char>> {
    match text {
        Some(t) => Some(t@),
        None => None,
    }
}

/// Finds the first zone parameter in a list of parameters.
pub fn first_zone_of<'a>(list: &'a Vec<(String, Vec<String>)>) -> (zone: Option<&'a str>)
    ensures
        text_of(zone) == first_zone(list.deep_view()),
{
    let ghost all = list.deep_view();
    let mut i: usize = 0;
    assert(all.skip(0) == all);
    while i < list.len()
        invariant
            i <= list.len(),
            all == list.deep_view(),
            first_zone(all) == first_zone(all.skip(i as int)),
        decreases list.len() - i,
    {
        let name = list[i].0.as_str().to_uppercase();
        let ghost rest = all.skip(i as int);
        assert(rest.drop_first() == all.skip(i + 1));
        if same_text(name.as_str(), PARAM_TZID) && list[i].1.len() > 0 {
            return Some(list[i].1[0].as_str());
        }
        i += 1;
    }
    None
}

/// Finds the zone parameter among the parameters of a property.
pub fn zone_of<'a>(params: &'a Option<Vec<(String, Vec<String>)>>) -> (zone: Option<&'a str>)
    ensures
        text_of(zone) == zone_param(params.deep_view()),
{
    match params {
        None => None,
        Some(list) => first_zone_of(list),
    }
}

/// Whether some zone parameter of a list names a zone that does not exist.
pub fn any_unknown_zone_in(list: &Vec<(String, Vec<String>)>) -> (found: bool)
    ensures
        found == some_zone_unknown(list.deep_view()),
{
    let ghost all = list.deep_view();
    let mut i: usize = 0;
    while i < list.len()
        invariant
            i <= list.len(),
            all == list.deep_view(),
            forall|j: int| 0 <= j < i && names_zone(#[trigger] all[j]) ==> zone_exists(all[j].1[0]),
        decreases list.len() - i,
    {
        let name = list[i].0.as_str().to_uppercase();
        assert(all[i as int] == list[i as int].deep_view());
        if same_text(name.as_str(), PARAM_TZID) && list[i].1.len() > 0 {
            assert(all[i as int].1[0] == list[i as int].1[0]@);
            if !is_zone_name(list[i].1[0].as_str()) {
                return true;
            }
        }
        i += 1;
    }
    false
}

/// Whether some zone parameter of a property names a zone that does not
/// exist.
pub fn any_unknown_zone(params: &Option<Vec<(String, Vec<String>)>>) -> (found: bool)
    ensures
        found == names_unknown_zone(params.deep_view()),
{
    match params {
        None => false,
        Some(list) => any_unknown_zone_in(list),
    }
}

/// Resolves the value of a `DTSTART` (`is_dt_start`) or `DTEND` property.
pub fn parse_datetime(property: &Property, is_dt_start: bool) -> (instant: Result<
    i64,
    ParseFailure,
>)
    ensures
        instant == stamp_of(property@, is_dt_start),
{
    match &property.value {
        None => Err(ParseFailure::MissingValue),
        Some(raw) => {
            let zone = zone_of(&property.params);
            match resolve(raw.as_str(), zone, is_dt_start) {
                Err(ParseFailure::InvalidFormat) => {
                    if is_zoned_form(raw.as_str()) && any_unknown_zone(&property.params) {
                        Err(ParseFailure::UnknownZone)
                    } else {
                        Err(ParseFailure::InvalidFormat)
                    }
                },
                plain => plain,
            }
        },
    }
}

} // verus!
