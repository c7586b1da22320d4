//! Decides whether a date is a work day or a rest day from calendar events.
//!
//! Calendar payloads are parsed into events, each event is classified by the
//! patterns of the configuration, and the classifications of one day are
//! reduced to a single verdict by the configured priority rule.

pub mod choliday;
pub mod conf;
pub mod datetime;
pub mod event;
pub mod ical;
pub mod moment;
pub mod parser;
pub mod priority;
pub mod property;
pub mod text;
pub mod workday;
