//! The flag a coop advertises on the aggregation service, and its
//! resolution from the service's four booleans.

use vstd::prelude::*;

verus! {

/// How a coop advertises itself: at most one flag, by fixed priority.
#[derive(Debug, Clone, Copy, PartialEq, Eq, Structural)]
pub enum CoopFlag {
    NoFlags,
    AnyGrade,
    Carry,
    Fastrun,
    Speedrun,
}

impl Default for CoopFlag {
    fn default() -> (r: Self)
        ensures
            r == CoopFlag::NoFlags,
    {
        CoopFlag::NoFlags
    }
}

/// The documented priority of the service's flag booleans: speed run over
/// fast run over carry over any-grade; none set means no flags.
pub open spec fn flag_of(any_grade: bool, carry: bool, fast_run: bool, speed_run: bool)
    -> CoopFlag {
    if speed_run {
        CoopFlag::Speedrun
    } else if fast_run {
        CoopFlag::Fastrun
    } else if carry {
        CoopFlag::Carry
    } else if any_grade {
        CoopFlag::AnyGrade
    } else {
        CoopFlag::NoFlags
    }
}

impl CoopFlag {
    /// Resolve the four flag booleans of the aggregation service's coop
    /// record into the single flag, by the documented priority.
    pub fn from_flags(any_grade: bool, carry: bool, fast_run: bool, speed_run: bool) -> (r:
        CoopFlag)
        ensures
            r == flag_of(any_grade, carry, fast_run, speed_run),
    {
        if speed_run {
            CoopFlag::Speedrun
        } else if fast_run {
            CoopFlag::Fastrun
        } else if carry {
            CoopFlag::Carry
        } else if any_grade {
            CoopFlag::AnyGrade
        } else {
            CoopFlag::NoFlags
        }
    }
}

} // verus!
