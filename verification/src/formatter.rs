//! Rendering helpers: plain-text alignment, durations, timestamp markup
//! and monospace tables.

use vstd::prelude::*;

pub mod discord_table;
pub mod discord_timestamp;
pub mod duration;
pub mod string_formatter;

verus! {

/// Hook for renderers that turn a contract's coops into one display string.
pub trait ContractFormatter {
    fn format() -> String;
}

} // verus!
