//! A duration in whole seconds and its `XdYhZm` rendering.

use vstd::prelude::*;
use vstd::arithmetic::div_mod::lemma_fundamental_div_mod;
use vstd::arithmetic::div_mod::lemma_div_pos_is_pos;
use crate::formatter::string_formatter::dec_seq_int;
use crate::formatter::string_formatter::append_i64_decimal;

verus! {

/// Division truncating toward zero, as machine division of signed words
/// does it.
pub open spec fn tdiv(a: int, b: int) -> int
    recommends
        b > 0,
{
    if a >= 0 {
        a / b
    } else {
        -((-a) / b)
    }
}

/// The quotient of truncating division never overshoots the dividend, in
/// either direction, and leaves a remainder smaller than the divisor.
pub proof fn lemma_tdiv_props(a: int, b: int)
    requires
        b > 0,
    ensures
        a >= 0 ==> 0 <= tdiv(a, b) && 0 <= tdiv(a, b) * b <= a && a - tdiv(a, b) * b < b,
        a < 0 ==> tdiv(a, b) <= 0 && a <= tdiv(a, b) * b <= 0 && a - tdiv(a, b) * b > -b,
{
    if a >= 0 {
        lemma_div_pos_is_pos(a, b);
        lemma_fundamental_div_mod(a, b);
    } else {
        let q = (-a) / b;
        lemma_div_pos_is_pos(-a, b);
        lemma_fundamental_div_mod(-a, b);
        assert(q * b >= 0) by (nonlinear_arith)
            requires
                q >= 0 && b > 0,
        ;
        assert((-q) * b == -(q * b)) by (nonlinear_arith);
        assert(tdiv(a, b) == -q);
        assert((-a) == b * q + (-a) % b);
    }
}

/// Whole days of a duration.
pub open spec fn days_of(d: int) -> int {
    tdiv(d, 86400)
}

/// Whole hours left over after the days.
pub open spec fn hours_of(d: int) -> int {
    tdiv(d - days_of(d) * 86400, 3600)
}

/// Whole minutes left over after the days and hours.
pub open spec fn minutes_of(d: int) -> int {
    tdiv(d - days_of(d) * 86400 - hours_of(d) * 3600, 60)
}

/// The `XdYhZm` rendering: days and hours are suppressed when zero or
/// negative, minutes always shown.
pub open spec fn duration_format_seq(d: int) -> Seq<char> {
    (if days_of(d) > 0 {
        dec_seq_int(days_of(d)) + seq!['d']
    } else {
        Seq::<char>::empty()
    }) + (if hours_of(d) > 0 {
        dec_seq_int(hours_of(d)) + seq!['h']
    } else {
        Seq::<char>::empty()
    }) + dec_seq_int(minutes_of(d)) + seq!['m']
}

/// A length of time in whole seconds; negative when a coop finished ahead
/// of the span being measured.
#[derive(Debug, Clone, Copy, PartialEq, Eq, Structural)]
pub struct Duration {
    pub duration_in_seconds: i64,
}

/// Truncating division of a signed count of seconds by a positive unit.
fn tdiv_exec(a: i64, b: u64) -> (r: i64)
    requires
        0 < b <= i64::MAX,
    ensures
        r == tdiv(a as int, b as int),
{
    if a >= 0 {
        proof {
            lemma_tdiv_props(a as int, b as int);
        }
        ((a as u64) / b) as i64
    } else {
        let mag: u64 = if a == i64::MIN {
            9223372036854775808u64
        } else {
            (-a) as u64
        };
        let q: u64 = mag / b;
        proof {
            lemma_tdiv_props(a as int, b as int);
        }
        if q == 9223372036854775808u64 {
            i64::MIN
        } else {
            -(q as i64)
        }
    }
}

impl Duration {
    pub fn new(duration: i64) -> (r: Self)
        ensures
            r.duration_in_seconds == duration,
    {
        Self { duration_in_seconds: duration }
    }

    pub fn calc_days(&self) -> (r: i64)
        ensures
            r == days_of(self.duration_in_seconds as int),
    {
        tdiv_exec(self.duration_in_seconds, 86400)
    }

    pub fn calc_hours(&self) -> (r: i64)
        ensures
            r == hours_of(self.duration_in_seconds as int),
    {
        let d = self.duration_in_seconds;
        let days = self.calc_days();
        proof {
            lemma_tdiv_props(d as int, 86400);
        }
        tdiv_exec(d - days * 86400, 3600)
    }

    pub fn calc_minutes(&self) -> (r: i64)
        ensures
            r == minutes_of(self.duration_in_seconds as int),
    {
        let d = self.duration_in_seconds;
        let days = self.calc_days();
        let hours = self.calc_hours();
        proof {
            lemma_tdiv_props(d as int, 86400);
            lemma_tdiv_props(d - days_of(d as int) * 86400, 3600);
        }
        tdiv_exec(d - days * 86400 - hours * 3600, 60)
    }

    /// Render as `XdYhZm`, omitting day and hour parts that are not
    /// positive.
    pub fn format(&self) -> (r: String)
        ensures
            r@ == duration_format_seq(self.duration_in_seconds as int),
    {
        let day = self.calc_days();
        let hour = self.calc_hours();
        let min = self.calc_minutes();

        let mut out = String::new();
        if day > 0 {
            append_i64_decimal(&mut out, day);
            proof {
                reveal_strlit("d");
            }
            out.append("d");
        }
        if hour > 0 {
            append_i64_decimal(&mut out, hour);
            proof {
                reveal_strlit("h");
            }
            out.append("h");
        }
        append_i64_decimal(&mut out, min);
        proof {
            reveal_strlit("m");
        }
        out.append("m");
        proof {
            reveal_strlit("d");
            reveal_strlit("h");
            reveal_strlit("m");
            assert(out@ =~= duration_format_seq(self.duration_in_seconds as int));
        }
        out
    }

    /// As [`Self::format`], except that a duration of 100 days or more
    /// reads `Too long`.
    pub fn format_too_long(&self) -> (r: String)
        ensures
            r@ == if days_of(self.duration_in_seconds as int) >= 100 {
                "Too long"@
            } else {
                duration_format_seq(self.duration_in_seconds as int)
            },
    {
        if self.calc_days() >= 100 {
            return "Too long".to_owned();
        }
        self.format()
    }
}

} // verus!
