//! Markup for an absolute instant, rendered as Discord's `<t:...:mode>`
//! timestamp tag.

use vstd::prelude::*;
use crate::formatter::string_formatter::dec_seq_int;
use crate::formatter::string_formatter::append_i64_decimal;

verus! {

/// An absolute instant in whole seconds since the Unix epoch.
#[derive(Debug, Clone, Copy, PartialEq, Eq, Structural)]
pub struct DiscordTimestamp {
    pub time: i64,
}

/// The rendering modes the markup offers.
#[derive(Debug, Clone, Copy, PartialEq, Eq, Structural)]
pub enum DiscordTimestampDisplay {
    ShortDate,
    FullDate,
    HourMinuteTime,
    HourMinuteSecondTime,
    FullDateTime,
    FullDateTimeDayOfWeek,
    Relative,
}

impl Default for DiscordTimestamp {
    fn default() -> (r: Self)
        ensures
            r.time == 0,
    {
        DiscordTimestamp { time: 0 }
    }
}

impl Default for DiscordTimestampDisplay {
    fn default() -> (r: Self)
        ensures
            r == DiscordTimestampDisplay::FullDateTime,
    {
        DiscordTimestampDisplay::FullDateTime
    }
}

/// The one-letter code of a rendering mode.
pub open spec fn display_mode_code(mode: DiscordTimestampDisplay) -> Seq<char> {
    match mode {
        DiscordTimestampDisplay::ShortDate => seq!['d'],
        DiscordTimestampDisplay::FullDate => seq!['D'],
        DiscordTimestampDisplay::HourMinuteTime => seq!['t'],
        DiscordTimestampDisplay::HourMinuteSecondTime => seq!['T'],
        DiscordTimestampDisplay::FullDateTime => seq!['f'],
        DiscordTimestampDisplay::FullDateTimeDayOfWeek => seq!['F'],
        DiscordTimestampDisplay::Relative => seq!['R'],
    }
}

/// The full `<t:time:mode>` tag.
pub open spec fn timestamp_display_seq(time: int, mode: DiscordTimestampDisplay) -> Seq<char> {
    seq!['<', 't', ':'] + dec_seq_int(time) + seq![':'] + display_mode_code(mode) + seq!['>']
}

impl DiscordTimestamp {
    pub fn new(time: i64) -> (r: Self)
        ensures
            r.time == time,
    {
        Self { time }
    }

    /// The instant `secs_remaining` seconds after `now`.
    pub fn new_from_secs_remaining(secs_remaining: i64, now: i64) -> (r: Self)
        requires
            i64::MIN <= secs_remaining + now <= i64::MAX,
        ensures
            r.time == secs_remaining + now,
    {
        Self { time: secs_remaining + now }
    }

    /// Render as the `<t:time:mode>` tag.
    pub fn display(&self, display_mode: DiscordTimestampDisplay) -> (r: String)
        ensures
            r@ == timestamp_display_seq(self.time as int, display_mode),
    {
        let identifier: &str = match display_mode {
            DiscordTimestampDisplay::ShortDate => "d",
            DiscordTimestampDisplay::FullDate => "D",
            DiscordTimestampDisplay::HourMinuteTime => "t",
            DiscordTimestampDisplay::HourMinuteSecondTime => "T",
            DiscordTimestampDisplay::FullDateTime => "f",
            DiscordTimestampDisplay::FullDateTimeDayOfWeek => "F",
            DiscordTimestampDisplay::Relative => "R",
        };
        proof {
            reveal_strlit("d");
            reveal_strlit("D");
            reveal_strlit("t");
            reveal_strlit("T");
            reveal_strlit("f");
            reveal_strlit("F");
            reveal_strlit("R");
            assert(identifier@ =~= display_mode_code(display_mode));
        }
        let mut out = String::new();
        proof {
            reveal_strlit("<t:");
            reveal_strlit(":");
            reveal_strlit(">");
        }
        out.append("<t:");
        append_i64_decimal(&mut out, self.time);
        out.append(":");
        out.append(identifier);
        out.append(">");
        proof {
            assert(out@ =~= timestamp_display_seq(self.time as int, display_mode));
        }
        out
    }
}

} // verus!
