//! Domain model for contracts and coop status reports.
//!
//! Egg counts, rates and time quantities are carried as integers: egg counts
//! and per-second rates as whole eggs (`u64`), time offsets as whole seconds.
//! A farm's `timestamp` is the last-sync instant minus the current instant,
//! so it is never positive for a well-formed report.

use vstd::prelude::*;

verus! {

/// Difficulty tier a coop is evaluated against.
#[derive(Clone, Copy, PartialEq, Eq, Structural, Debug)]
pub enum Grade {
    Unset,
    C,
    B,
    A,
    AA,
    AAA,
}

/// The display name of a grade.
pub open spec fn grade_label_spec(g: Grade) -> Seq<char> {
    match g {
        Grade::Unset => "Unset"@,
        Grade::C => "C"@,
        Grade::B => "B"@,
        Grade::A => "A"@,
        Grade::AA => "AA"@,
        Grade::AAA => "AAA"@,
    }
}

impl Grade {
    /// The grade's display name.
    pub fn label(&self) -> (r: String)
        ensures
            r@ == grade_label_spec(*self),
    {
        match self {
            Grade::Unset => "Unset".to_owned(),
            Grade::C => "C".to_owned(),
            Grade::B => "B".to_owned(),
            Grade::A => "A".to_owned(),
            Grade::AA => "AA".to_owned(),
            Grade::AAA => "AAA".to_owned(),
        }
    }
}

/// Outcome reported by the server for a coop status request.
/// Anything other than `NoError` means the coop code / contract pairing
/// was rejected.
#[derive(Clone, Copy, PartialEq, Eq, Structural, Debug)]
pub enum ResponseStatus {
    NoError,
    InvalidCoopCode,
    Other,
}

/// An egg-count target associated with a grade.
#[derive(Clone, Copy, Debug)]
pub struct Goal {
    pub target_amount: u64,
}

/// The goals of one grade within a contract.
#[derive(Clone, Debug)]
pub struct GradeSpec {
    pub grade: Grade,
    pub goals: Vec<Goal>,
}

/// A time-boxed cooperative challenge definition with per-grade egg targets.
#[derive(Clone, Debug)]
pub struct Contract {
    pub identifier: String,
    pub length_seconds: u64,
    pub grade_specs: Vec<GradeSpec>,
}

/// Per-farm sync information of a contributor; absent when the player is
/// departed or keeps a private farm.
#[derive(Clone, Copy, Debug)]
pub struct FarmInfo {
    /// Last-sync time minus current time, in seconds; never positive.
    pub timestamp: i64,
    pub recently_active: bool,
    pub active: bool,
    pub time_cheat_detected: bool,
}

/// A player's participation record within a coop status report.
#[derive(Clone, Debug)]
pub struct Contributor {
    pub user_name: String,
    /// Eggs per second.
    pub contribution_rate: u64,
    pub contribution_amount: u64,
    pub boost_tokens: u32,
    pub boost_tokens_spent: u32,
    pub farm_info: Option<FarmInfo>,
}

/// One decoded coop status report; refetched wholesale, never merged.
#[derive(Clone, Debug)]
pub struct CoopStatus {
    pub contract_identifier: String,
    pub coop_identifier: String,
    pub grade: Grade,
    /// The coop's currently valid time budget, in seconds.
    pub seconds_remaining: i64,
    /// 0 until all goals are achieved.
    pub seconds_since_all_goals_achieved: u64,
    /// Eggs shipped so far.
    pub total_amount: u64,
    pub contributors: Vec<Contributor>,
    pub response_status: ResponseStatus,
    pub all_goals_achieved: bool,
    pub cleared_for_exit: bool,
}

/// A contributor's farm timestamp respects its sign convention.
pub open spec fn timestamp_ok(c: Contributor) -> bool {
    match c.farm_info {
        Some(f) => f.timestamp <= 0,
        None => true,
    }
}

/// Eggs a contributor has produced while offline: rate times the seconds
/// since the farm last synced.  A contributor without farm info contributes
/// exactly 0, whatever its rate.
pub open spec fn offline_of(c: Contributor) -> int {
    match c.farm_info {
        Some(f) => c.contribution_rate * (-(f.timestamp as int)),
        None => 0,
    }
}

/// Total offline eggs of a contributor list.
pub open spec fn sum_offline(cs: Seq<Contributor>) -> int
    decreases cs.len(),
{
    if cs.len() == 0 {
        0
    } else {
        sum_offline(cs.drop_last()) + offline_of(cs.last())
    }
}

/// Total per-second shipping rate of a contributor list.
pub open spec fn sum_rates(cs: Seq<Contributor>) -> int
    decreases cs.len(),
{
    if cs.len() == 0 {
        0
    } else {
        sum_rates(cs.drop_last()) + cs.last().contribution_rate
    }
}

/// Total boost tokens (held plus spent) of a contributor list.
pub open spec fn sum_tokens(cs: Seq<Contributor>) -> int
    decreases cs.len(),
{
    if cs.len() == 0 {
        0
    } else {
        sum_tokens(cs.drop_last()) + cs.last().boost_tokens + cs.last().boost_tokens_spent
    }
}

/// Number of contributors that spent at least `threshold` boost tokens.
pub open spec fn count_boosted(cs: Seq<Contributor>, threshold: u32) -> int
    decreases cs.len(),
{
    if cs.len() == 0 {
        0
    } else {
        count_boosted(cs.drop_last(), threshold) + if cs.last().boost_tokens_spent >= threshold {
            1int
        } else {
            0int
        }
    }
}

/// Largest target amount among a grade's goals; 0 when the list is empty.
pub open spec fn max_goal(goals: Seq<Goal>) -> int
    decreases goals.len(),
{
    if goals.len() == 0 {
        0
    } else {
        let rest = max_goal(goals.drop_last());
        if goals.last().target_amount > rest {
            goals.last().target_amount as int
        } else {
            rest
        }
    }
}

/// A report is well formed when its farm timestamps are sign-correct and its
/// aggregates fit the machine words the engine computes with.
pub open spec fn status_wf(s: CoopStatus) -> bool {
    &&& (forall|i: int| 0 <= i < s.contributors@.len() ==> timestamp_ok(#[trigger] s.contributors@[i]))
    &&& sum_offline(s.contributors@) <= u128::MAX
    &&& s.contributors@.len() <= u32::MAX
    &&& sum_tokens(s.contributors@) <= u32::MAX
}

pub proof fn lemma_offline_nonneg(cs: Seq<Contributor>)
    requires
        forall|i: int| 0 <= i < cs.len() ==> timestamp_ok(#[trigger] cs[i]),
    ensures
        sum_offline(cs) >= 0,
    decreases cs.len(),
{
    if cs.len() > 0 {
        assert(forall|i: int| 0 <= i < cs.drop_last().len() ==> cs.drop_last()[i] == cs[i]);
        lemma_offline_nonneg(cs.drop_last());
        assert(timestamp_ok(cs.last()));
    }
}

/// Offline sums of sign-correct prefixes never exceed the whole sum.
proof fn lemma_offline_prefix(cs: Seq<Contributor>, n: int)
    requires
        0 <= n <= cs.len(),
        forall|i: int| 0 <= i < cs.len() ==> timestamp_ok(#[trigger] cs[i]),
    ensures
        0 <= sum_offline(cs.take(n)) <= sum_offline(cs),
    decreases cs.len(),
{
    assert(forall|i: int| 0 <= i < cs.take(n).len() ==> cs.take(n)[i] == cs[i]);
    lemma_offline_nonneg(cs.take(n));
    if n < cs.len() {
        assert(forall|i: int| 0 <= i < cs.drop_last().len() ==> cs.drop_last()[i] == cs[i]);
        assert(cs.drop_last().take(n) =~= cs.take(n));
        lemma_offline_prefix(cs.drop_last(), n);
        assert(timestamp_ok(cs.last()));
    } else {
        assert(cs.take(n) =~= cs);
    }
}

pub proof fn lemma_sum_rates_bound(cs: Seq<Contributor>)
    ensures
        0 <= sum_rates(cs) <= cs.len() * (u64::MAX as int),
    decreases cs.len(),
{
    if cs.len() > 0 {
        lemma_sum_rates_bound(cs.drop_last());
    }
}

pub proof fn lemma_sum_tokens_bound(cs: Seq<Contributor>)
    ensures
        0 <= sum_tokens(cs) <= cs.len() * (2 * (u32::MAX as int)),
    decreases cs.len(),
{
    if cs.len() > 0 {
        lemma_sum_tokens_bound(cs.drop_last());
    }
}

pub proof fn lemma_max_goal_bound(goals: Seq<Goal>)
    ensures
        0 <= max_goal(goals) <= u64::MAX,
    decreases goals.len(),
{
    if goals.len() > 0 {
        lemma_max_goal_bound(goals.drop_last());
    }
}

pub proof fn lemma_count_boosted_bound(cs: Seq<Contributor>, threshold: u32)
    ensures
        0 <= count_boosted(cs, threshold) <= cs.len(),
    decreases cs.len(),
{
    if cs.len() > 0 {
        lemma_count_boosted_bound(cs.drop_last(), threshold);
    }
}

/// Magnitude of a non-positive timestamp, as elapsed seconds.
fn elapsed_seconds(timestamp: i64) -> (r: u64)
    requires
        timestamp <= 0,
    ensures
        r == -(timestamp as int),
{
    if timestamp == i64::MIN {
        9223372036854775808u64
    } else {
        (-timestamp) as u64
    }
}

impl CoopStatus {
    /// Total per-second shipping rate of the entire coop.
    pub fn total_shipping_rate(&self) -> (r: u128)
        ensures
            r == sum_rates(self.contributors@),
    {
        let cs = &self.contributors;
        let mut acc: u128 = 0;
        let mut i: usize = 0;
        proof {
            assert(cs@.take(0int) =~= Seq::<Contributor>::empty());
        }
        while i < cs.len()
            invariant
                i <= cs@.len(),
                acc == sum_rates(cs@.take(i as int)),
            decreases cs@.len() - i,
        {
            proof {
                lemma_sum_rates_bound(cs@.take(i as int));
                assert(cs@.take(i as int).len() * (u64::MAX as int) <= (usize::MAX as int) * (
                u64::MAX as int)) by (nonlinear_arith)
                    requires
                        0 <= cs@.take(i as int).len() <= usize::MAX,
                ;
                assert(cs@.take(i as int + 1).drop_last() =~= cs@.take(i as int));
                assert(cs@.take(i as int + 1).last() == cs@[i as int]);
            }
            acc = acc + cs[i].contribution_rate as u128;
            i = i + 1;
        }
        proof {
            assert(cs@.take(cs@.len() as int) =~= cs@);
        }
        acc
    }

    /// Total offline eggs laid by the coop's players.  `farm_info.timestamp`
    /// is the last sync time minus the current time, so its negation is the
    /// number of seconds the farm has been out of sync.
    pub fn total_offline_eggs(&self) -> (r: u128)
        requires
            status_wf(*self),
        ensures
            r == sum_offline(self.contributors@),
    {
        let cs = &self.contributors;
        let mut acc: u128 = 0;
        let mut i: usize = 0;
        proof {
            assert(cs@.take(0int) =~= Seq::<Contributor>::empty());
        }
        while i < cs.len()
            invariant
                status_wf(*self),
                cs == &self.contributors,
                i <= cs@.len(),
                acc == sum_offline(cs@.take(i as int)),
            decreases cs@.len() - i,
        {
            proof {
                lemma_offline_prefix(cs@, i as int + 1);
                assert(cs@.take(i as int + 1).drop_last() =~= cs@.take(i as int));
                assert(cs@.take(i as int + 1).last() == cs@[i as int]);
                assert(timestamp_ok(cs@[i as int]));
            }
            let term: u128 = match &cs[i].farm_info {
                Some(f) => {
                    let mag = elapsed_seconds(f.timestamp);
                    proof {
                        assert(cs@[i as int].contribution_rate * (mag as int) <= (u64::MAX as int)
                            * (u64::MAX as int)) by (nonlinear_arith)
                            requires
                                0 <= cs@[i as int].contribution_rate <= u64::MAX,
                                0 <= mag <= u64::MAX,
                        ;
                    }
                    (cs[i].contribution_rate as u128) * (mag as u128)
                },
                None => 0,
            };
            assert(term == offline_of(cs@[i as int]));
            acc = acc + term;
            i = i + 1;
        }
        proof {
            assert(cs@.take(cs@.len() as int) =~= cs@);
        }
        acc
    }

    /// Total boost tokens, held plus spent, over all contributors.
    pub fn total_token_sum(&self) -> (r: u128)
        ensures
            r == sum_tokens(self.contributors@),
    {
        let cs = &self.contributors;
        let mut acc: u128 = 0;
        let mut i: usize = 0;
        proof {
            assert(cs@.take(0int) =~= Seq::<Contributor>::empty());
        }
        while i < cs.len()
            invariant
                i <= cs@.len(),
                acc == sum_tokens(cs@.take(i as int)),
            decreases cs@.len() - i,
        {
            proof {
                lemma_sum_tokens_bound(cs@.take(i as int));
                assert(cs@.take(i as int).len() * (2 * (u32::MAX as int)) <= (usize::MAX as int) * (
                2 * (u32::MAX as int))) by (nonlinear_arith)
                    requires
                        0 <= cs@.take(i as int).len() <= usize::MAX,
                ;
                assert(cs@.take(i as int + 1).drop_last() =~= cs@.take(i as int));
                assert(cs@.take(i as int + 1).last() == cs@[i as int]);
            }
            acc = acc + (cs[i].boost_tokens as u128) + (cs[i].boost_tokens_spent as u128);
            i = i + 1;
        }
        proof {
            assert(cs@.take(cs@.len() as int) =~= cs@);
        }
        acc
    }

    /// Number of contributors that spent at least `threshold` boost tokens.
    pub fn count_boosted_players(&self, threshold: u32) -> (r: usize)
        ensures
            r == count_boosted(self.contributors@, threshold),
    {
        let cs = &self.contributors;
        let mut acc: usize = 0;
        let mut i: usize = 0;
        proof {
            assert(cs@.take(0int) =~= Seq::<Contributor>::empty());
        }
        while i < cs.len()
            invariant
                i <= cs@.len(),
                acc == count_boosted(cs@.take(i as int), threshold),
            decreases cs@.len() - i,
        {
            proof {
                lemma_count_boosted_bound(cs@.take(i as int), threshold);
                assert(cs@.take(i as int + 1).drop_last() =~= cs@.take(i as int));
                assert(cs@.take(i as int + 1).last() == cs@[i as int]);
            }
            if cs[i].boost_tokens_spent >= threshold {
                acc = acc + 1;
            }
            i = i + 1;
        }
        proof {
            assert(cs@.take(cs@.len() as int) =~= cs@);
        }
        acc
    }

    fn timestamps_ok(&self) -> (r: bool)
        ensures
            r == forall|i: int|
                0 <= i < self.contributors@.len() ==> timestamp_ok(#[trigger] self.contributors@[i]),
    {
        let mut i: usize = 0;
        while i < self.contributors.len()
            invariant
                i <= self.contributors@.len(),
                forall|k: int| 0 <= k < i ==> timestamp_ok(#[trigger] self.contributors@[k]),
            decreases self.contributors@.len() - i,
        {
            let ok = match &self.contributors[i].farm_info {
                Some(f) => f.timestamp <= 0,
                None => true,
            };
            if !ok {
                assert(!timestamp_ok(self.contributors@[i as int]));
                return false;
            }
            i = i + 1;
        }
        true
    }

    fn offline_fits(&self) -> (r: bool)
        requires
            forall|i: int|
                0 <= i < self.contributors@.len() ==> timestamp_ok(#[trigger] self.contributors@[i]),
        ensures
            r == (sum_offline(self.contributors@) <= u128::MAX),
    {
        let cs = &self.contributors;
        let mut acc: u128 = 0;
        let mut i: usize = 0;
        proof {
            assert(cs@.take(0int) =~= Seq::<Contributor>::empty());
        }
        while i < cs.len()
            invariant
                cs == &self.contributors,
                forall|k: int| 0 <= k < cs@.len() ==> timestamp_ok(#[trigger] cs@[k]),
                i <= cs@.len(),
                acc == sum_offline(cs@.take(i as int)),
            decreases cs@.len() - i,
        {
            proof {
                assert(cs@.take(i as int + 1).drop_last() =~= cs@.take(i as int));
                assert(cs@.take(i as int + 1).last() == cs@[i as int]);
                assert(timestamp_ok(cs@[i as int]));
            }
            let term: u128 = match &cs[i].farm_info {
                Some(f) => {
                    let mag = elapsed_seconds(f.timestamp);
                    proof {
                        assert(cs@[i as int].contribution_rate * (mag as int) <= (u64::MAX as int)
                            * (u64::MAX as int)) by (nonlinear_arith)
                            requires
                                0 <= cs@[i as int].contribution_rate <= u64::MAX,
                                0 <= mag <= u64::MAX,
                        ;
                    }
                    (cs[i].contribution_rate as u128) * (mag as u128)
                },
                None => 0,
            };
            assert(term == offline_of(cs@[i as int]));
            match acc.checked_add(term) {
                Some(next) => {
                    acc = next;
                },
                None => {
                    proof {
                        lemma_offline_prefix(cs@, i as int + 1);
                    }
                    return false;
                },
            }
            i = i + 1;
        }
        proof {
            assert(cs@.take(cs@.len() as int) =~= cs@);
        }
        true
    }

    /// Runtime check for [`status_wf`], for callers that receive a report
    /// from outside and cannot assume anything about it.
    pub fn is_well_formed(&self) -> (r: bool)
        ensures
            r == status_wf(*self),
    {
        if !self.timestamps_ok() {
            return false;
        }
        if !self.offline_fits() {
            return false;
        }
        if self.contributors.len() > u32::MAX as usize {
            return false;
        }
        let tokens = self.total_token_sum();
        tokens <= u32::MAX as u128
    }
}

/// Field-by-field copy of a grade spec, with the copy's contents pinned
/// down (a derived clone says nothing about what it returns).
pub fn copy_grade_spec(gs: &GradeSpec) -> (r: GradeSpec)
    ensures
        r.grade == gs.grade,
        r.goals@ == gs.goals@,
{
    let mut goals: Vec<Goal> = Vec::new();
    let mut i: usize = 0;
    while i < gs.goals.len()
        invariant
            i <= gs.goals@.len(),
            goals@ == gs.goals@.take(i as int),
        decreases gs.goals@.len() - i,
    {
        goals.push(gs.goals[i]);
        proof {
            assert(gs.goals@.take(i as int + 1) =~= gs.goals@.take(i as int).push(
                gs.goals@[i as int],
            ));
        }
        i = i + 1;
    }
    proof {
        assert(gs.goals@.take(gs.goals@.len() as int) =~= gs.goals@);
    }
    GradeSpec { grade: gs.grade, goals }
}

/// Find a contract by its identifier; the first match wins.
pub fn find_contract_by_id(contracts: &Vec<Contract>, id: &String) -> (r: Option<usize>)
    ensures
        match r {
            Some(i) => 0 <= i < contracts@.len() && contracts@[i as int].identifier@ == id@
                && forall|k: int| 0 <= k < i ==> contracts@[k].identifier@ != id@,
            None => forall|k: int| 0 <= k < contracts@.len() ==> contracts@[k].identifier@ != id@,
        },
{
    let mut i: usize = 0;
    while i < contracts.len()
        invariant
            i <= contracts@.len(),
            forall|k: int| 0 <= k < i ==> contracts@[k].identifier@ != id@,
        decreases contracts@.len() - i,
    {
        if contracts[i].identifier.eq(id) {
            return Some(i);
        }
        i = i + 1;
    }
    None
}

} // verus!
