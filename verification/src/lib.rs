//! Calendar-event time resolution.
//!
//! This library turns free-form, user-supplied text fields (start time, end
//! time, duration, plus title/description/location) into a single
//! well-formed calendar event draft. Its core is the time-resolution
//! engine: parsing human-entered date/time and duration strings into a
//! canonical timestamp representation, and resolving a definite
//! `(start, end)` pair from any combination of present, absent or empty
//! inputs, defaulting sensibly when fields are missing.

pub mod cal;
pub mod time;
