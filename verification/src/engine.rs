//! The prediction engine: turns a coop status report plus its contract's
//! grade metadata into the derived quantities a leaderboard orders by.
//!
//! Every quantity is a pure function of the status, the grade spec and the
//! contract length, so recomputing on an unchanged status always yields the
//! same values.

use vstd::prelude::*;
use vstd::arithmetic::div_mod::lemma_fundamental_div_mod;
use vstd::string::StrSliceExecFns;
use crate::error::ComputationError;
use crate::error::CoopError;
use crate::formatter::discord_timestamp::DiscordTimestamp;
use crate::formatter::duration::Duration;
use crate::model::Contract;
use crate::model::Contributor;
use crate::model::CoopStatus;
use crate::model::Grade;
use crate::model::GradeSpec;
use crate::model::ResponseStatus;
use crate::model::copy_grade_spec;
use crate::model::count_boosted;
use crate::model::lemma_count_boosted_bound;
use crate::model::lemma_max_goal_bound;
use crate::model::lemma_offline_nonneg;
use crate::model::max_goal;
use crate::model::status_wf;
use crate::model::sum_offline;
use crate::model::sum_rates;
use crate::model::sum_tokens;

verus! {

/// Deployment-specific knobs of the engine.  The boosted-player count has
/// historically used thresholds of 4 or 6 spent tokens depending on the
/// deployment, so the threshold is explicit configuration.
#[derive(Clone, Copy, PartialEq, Eq, Structural, Debug)]
pub struct EngineConfig {
    pub boost_threshold: u32,
}

/// Eggs still owed: the goal minus what was shipped and what lies in
/// offline farms, floored at zero.
pub open spec fn remaining_int(goal: int, shipped: int, offline: int) -> int {
    if goal - shipped - offline > 0 {
        goal - shipped - offline
    } else {
        0
    }
}

/// The effective egg goal of a grade spec: its largest goal.
pub open spec fn goal_of(gs: GradeSpec) -> int {
    max_goal(gs.goals@)
}

/// Eggs still owed by a coop evaluated against a grade spec.
pub open spec fn remaining_of(gs: GradeSpec, s: CoopStatus) -> int {
    remaining_int(goal_of(gs), s.total_amount as int, sum_offline(s.contributors@))
}

/// Predicted seconds to finish, truncated toward zero; meaningful only
/// when the coop's shipping rate is positive.
pub open spec fn predicted_of(gs: GradeSpec, s: CoopStatus) -> int {
    remaining_of(gs, s) / sum_rates(s.contributors@)
}

/// Predicted total duration of the coop from contract start to finish.
pub open spec fn duration_of(gs: GradeSpec, s: CoopStatus, length_seconds: int) -> int {
    length_seconds - s.seconds_remaining + predicted_of(gs, s)
        - s.seconds_since_all_goals_achieved
}

/// Seconds between now and the predicted finish (negative when the coop
/// already finished).
pub open spec fn finish_offset_of(gs: GradeSpec, s: CoopStatus) -> int {
    predicted_of(gs, s) - s.seconds_since_all_goals_achieved
}

/// The contract carries some grade spec of the given grade.
pub open spec fn has_grade_spec(c: Contract, g: Grade) -> bool {
    exists|i: int| 0 <= i < c.grade_specs@.len() && (#[trigger] c.grade_specs@[i]).grade == g
}

/// `i` is the first index of a grade spec of the given grade.
pub open spec fn is_first_grade_index(c: Contract, g: Grade, i: int) -> bool {
    &&& 0 <= i < c.grade_specs@.len()
    &&& c.grade_specs@[i].grade == g
    &&& forall|k: int| 0 <= k < i ==> (#[trigger] c.grade_specs@[k]).grade != g
}

/// Index of the first grade spec of the given grade.
pub fn find_grade_spec(contract: &Contract, grade: Grade) -> (r: Option<usize>)
    ensures
        match r {
            Some(i) => 0 <= i < contract.grade_specs@.len() && contract.grade_specs@[i as int].grade
                == grade && forall|k: int|
                0 <= k < i ==> contract.grade_specs@[k].grade != grade,
            None => forall|k: int|
                0 <= k < contract.grade_specs@.len() ==> contract.grade_specs@[k].grade != grade,
        },
{
    let mut i: usize = 0;
    while i < contract.grade_specs.len()
        invariant
            i <= contract.grade_specs@.len(),
            forall|k: int| 0 <= k < i ==> contract.grade_specs@[k].grade != grade,
        decreases contract.grade_specs@.len() - i,
    {
        if contract.grade_specs[i].grade == grade {
            return Some(i);
        }
        i = i + 1;
    }
    None
}

/// The largest target amount among a list of goals (0 for an empty list).
pub fn max_goal_amount(goals: &Vec<crate::model::Goal>) -> (r: u64)
    ensures
        r == max_goal(goals@),
{
    let mut acc: u64 = 0;
    let mut i: usize = 0;
    proof {
        assert(goals@.take(0int) =~= Seq::<crate::model::Goal>::empty());
    }
    while i < goals.len()
        invariant
            i <= goals@.len(),
            acc == max_goal(goals@.take(i as int)),
        decreases goals@.len() - i,
    {
        proof {
            assert(goals@.take(i as int + 1).drop_last() =~= goals@.take(i as int));
            assert(goals@.take(i as int + 1).last() == goals@[i as int]);
        }
        if goals[i].target_amount > acc {
            acc = goals[i].target_amount;
        }
        i = i + 1;
    }
    proof {
        assert(goals@.take(goals@.len() as int) =~= goals@);
    }
    acc
}

/// Eggs still owed by a status report against a grade spec; never
/// negative, even when offline production alone exceeds the goal.
pub fn eggs_remaining_for(gs: &GradeSpec, s: &CoopStatus) -> (r: u64)
    requires
        status_wf(*s),
    ensures
        r == remaining_of(*gs, *s),
{
    let goal = max_goal_amount(&gs.goals);
    let shipped = s.total_amount;
    let offline = s.total_offline_eggs();
    proof {
        lemma_offline_nonneg(s.contributors@);
        lemma_max_goal_bound(gs.goals@);
    }
    if offline >= goal as u128 {
        0
    } else {
        let rem = goal as u128 - offline;
        if shipped as u128 >= rem {
            0
        } else {
            (rem - shipped as u128) as u64
        }
    }
}

/// Predicted seconds until the goal is met, truncated toward zero; `None`
/// (the "duration unknown" sentinel) when the coop ships nothing.
pub fn predicted_for(gs: &GradeSpec, s: &CoopStatus) -> (r: Option<u64>)
    requires
        status_wf(*s),
    ensures
        r is Some <==> sum_rates(s.contributors@) > 0,
        r matches Some(p) ==> p == predicted_of(*gs, *s),
{
    let rate = s.total_shipping_rate();
    if rate == 0 {
        None
    } else {
        let rem = eggs_remaining_for(gs, s);
        let q: u128 = (rem as u128) / rate;
        proof {
            lemma_fundamental_div_mod(rem as int, rate as int);
            assert(q * rate >= q) by (nonlinear_arith)
                requires
                    q >= 0 && rate >= 1,
            ;
        }
        Some(q as u64)
    }
}

/// The first six characters of a coop id, or the id padded with spaces to
/// six characters when it is shorter.
pub open spec fn stripped_id_seq(s: Seq<char>) -> Seq<char> {
    if s.len() >= 6 {
        s.subrange(0, 6)
    } else {
        crate::formatter::string_formatter::left_align_seq(s, 6)
    }
}

/// One coop session's data, pinned to the grade spec that matches the
/// status report's grade.
#[derive(Debug)]
pub struct Coop {
    pub coop_status: CoopStatus,
    pub grade_spec: GradeSpec,
    pub contract_farm_max_secs_allowed: u64,
    pub config: EngineConfig,
}

impl Coop {
    /// The session's grade spec is the one of its status's grade, and the
    /// status's aggregates fit the machine words.
    pub open spec fn wf(self) -> bool {
        &&& status_wf(self.coop_status)
        &&& self.grade_spec.grade == self.coop_status.grade
    }

    pub open spec fn spec_rate(self) -> int {
        sum_rates(self.coop_status.contributors@)
    }

    /// A finite prediction exists only when the coop ships at all.
    pub open spec fn rate_known(self) -> bool {
        self.spec_rate() > 0
    }

    pub open spec fn spec_remaining(self) -> int {
        remaining_of(self.grade_spec, self.coop_status)
    }

    pub open spec fn spec_predicted(self) -> int {
        predicted_of(self.grade_spec, self.coop_status)
    }

    pub open spec fn spec_duration(self) -> int {
        duration_of(self.grade_spec, self.coop_status, self.contract_farm_max_secs_allowed as int)
    }

    pub open spec fn spec_finish_offset(self) -> int {
        finish_offset_of(self.grade_spec, self.coop_status)
    }

    /// The predicted duration, when meaningful, fits a signed 64-bit count
    /// of seconds.
    pub open spec fn duration_fits(self) -> bool {
        self.rate_known() ==> i64::MIN <= self.spec_duration() <= i64::MAX
    }

    /// Pin a status report to its contract's matching grade spec.  Fails
    /// when the contract has no spec for the report's grade; nothing is
    /// silently defaulted.
    pub fn new(coop_status: CoopStatus, contract: &Contract, config: EngineConfig) -> (r: Result<
        Coop,
        ComputationError,
    >)
        ensures
            match r {
                Ok(c) => {
                    &&& c.coop_status == coop_status
                    &&& c.config == config
                    &&& c.contract_farm_max_secs_allowed == contract.length_seconds
                    &&& c.grade_spec.grade == coop_status.grade
                    &&& exists|i: int|
                        0 <= i < contract.grade_specs@.len()
                            && #[trigger] contract.grade_specs@[i].grade == coop_status.grade && (
                        forall|k: int| 0 <= k < i ==> contract.grade_specs@[k].grade
                            != coop_status.grade) && c.grade_spec.goals@
                            == contract.grade_specs@[i].goals@
                },
                Err(e) => e == ComputationError::NoMatchingGrade && forall|k: int|
                    0 <= k < contract.grade_specs@.len()
                        ==> #[trigger] contract.grade_specs@[k].grade != coop_status.grade,
            },
            status_wf(coop_status) ==> match r {
                Ok(c) => c.wf(),
                Err(_) => true,
            },
    {
        match find_grade_spec(contract, coop_status.grade) {
            Some(i) => {
                let gs = copy_grade_spec(&contract.grade_specs[i]);
                Ok(
                    Coop {
                        coop_status,
                        grade_spec: gs,
                        contract_farm_max_secs_allowed: contract.length_seconds,
                        config,
                    },
                )
            },
            None => Err(ComputationError::NoMatchingGrade),
        }
    }

    pub fn coop_id(&self) -> (r: &String)
        ensures
            r@ == self.coop_status.coop_identifier@,
    {
        &self.coop_status.coop_identifier
    }

    pub fn contract_id(&self) -> (r: &String)
        ensures
            r@ == self.coop_status.contract_identifier@,
    {
        &self.coop_status.contract_identifier
    }

    /// Whether the coop has been cleared for exit ("green scrolled").
    pub fn green_scrolled(&self) -> (r: bool)
        ensures
            r == self.coop_status.cleared_for_exit,
    {
        self.coop_status.cleared_for_exit
    }

    pub fn coop_allowable_seconds_remaining(&self) -> (r: i64)
        ensures
            r == self.coop_status.seconds_remaining,
    {
        self.coop_status.seconds_remaining
    }

    /// Players that spent at least the configured token threshold.
    pub fn boosted_count(&self) -> (r: u32)
        requires
            self.wf(),
        ensures
            r == count_boosted(self.coop_status.contributors@, self.config.boost_threshold),
    {
        proof {
            lemma_count_boosted_bound(self.coop_status.contributors@, self.config.boost_threshold);
        }
        let n = self.coop_status.count_boosted_players(self.config.boost_threshold);
        n as u32
    }

    /// Boost tokens held plus spent, over the whole coop.
    pub fn total_tokens(&self) -> (r: u32)
        requires
            self.wf(),
        ensures
            r == sum_tokens(self.coop_status.contributors@),
    {
        let t = self.coop_status.total_token_sum();
        t as u32
    }

    /// The effective egg goal: the largest target among the grade spec's
    /// goals (0 when the spec lists none).
    pub fn egg_goal(&self) -> (r: u64)
        ensures
            r == goal_of(self.grade_spec),
    {
        max_goal_amount(&self.grade_spec.goals)
    }

    /// The first six characters of the coop id, space-padded when the id
    /// is shorter.
    pub fn stripped_coop_id(&self) -> (r: String)
        ensures
            r@ == stripped_id_seq(self.coop_status.coop_identifier@),
    {
        let id = self.coop_status.coop_identifier.as_str();
        let n = id.unicode_len();
        if n >= 6 {
            id.substring_char(0, 6).to_owned()
        } else {
            crate::formatter::string_formatter::left_align(id, 6)
        }
    }

    pub fn shipped_eggs(&self) -> (r: u64)
        ensures
            r == self.coop_status.total_amount,
    {
        self.coop_status.total_amount
    }

    /// Total per-second shipping rate of the coop.
    pub fn total_shipping_rate(&self) -> (r: u128)
        ensures
            r == self.spec_rate(),
    {
        self.coop_status.total_shipping_rate()
    }

    /// Total eggs produced while contributors' farms were offline.
    pub fn total_offline_eggs(&self) -> (r: u128)
        requires
            self.wf(),
        ensures
            r == sum_offline(self.coop_status.contributors@),
    {
        self.coop_status.total_offline_eggs()
    }

    /// Eggs still owed toward the goal; never negative, even when offline
    /// production alone exceeds the goal.
    pub fn eggs_remaining(&self) -> (r: u64)
        requires
            self.wf(),
        ensures
            r == self.spec_remaining(),
            r >= 0,
    {
        eggs_remaining_for(&self.grade_spec, &self.coop_status)
    }

    /// Predicted seconds until the goal is met, truncated toward zero;
    /// `None` (the "duration unknown" sentinel) when the coop ships no
    /// eggs per second at all.
    pub fn predicted_seconds_remaining(&self) -> (r: Option<u64>)
        requires
            self.wf(),
        ensures
            r is Some <==> self.rate_known(),
            r matches Some(p) ==> p == self.spec_predicted(),
    {
        predicted_for(&self.grade_spec, &self.coop_status)
    }

    /// Predicted total duration of the coop, from contract start to the
    /// predicted finish; `None` when the shipping rate is zero.
    pub fn total_predicted_duration(&self) -> (r: Option<Duration>)
        requires
            self.wf(),
            self.duration_fits(),
        ensures
            r is Some <==> self.rate_known(),
            r matches Some(d) ==> d.duration_in_seconds == self.spec_duration(),
    {
        match self.predicted_seconds_remaining() {
            None => None,
            Some(p) => {
                let total: i128 = self.contract_farm_max_secs_allowed as i128
                    - self.coop_status.seconds_remaining as i128 + p as i128
                    - self.coop_status.seconds_since_all_goals_achieved as i128;
                Some(Duration::new(total as i64))
            },
        }
    }

    /// The absolute instant of the predicted finish, given the current
    /// Unix time; `None` when the shipping rate is zero.
    pub fn finishing_time(&self, now: i64) -> (r: Option<DiscordTimestamp>)
        requires
            self.wf(),
            self.rate_known() ==> i64::MIN <= now + self.spec_finish_offset() <= i64::MAX,
        ensures
            r is Some <==> self.rate_known(),
            r matches Some(t) ==> t.time == now + self.spec_finish_offset(),
    {
        match self.predicted_seconds_remaining() {
            None => None,
            Some(p) => {
                let t: i128 = now as i128 + p as i128
                    - self.coop_status.seconds_since_all_goals_achieved as i128;
                Some(DiscordTimestamp::new(t as i64))
            },
        }
    }
}

// A coop's identity, for deduplication, is the pair of contract id and
// coop id — independent of the ordering, which compares derived values.
impl PartialEq for Coop {
    fn eq(&self, other: &Self) -> (r: bool) {
        self.coop_status.coop_identifier.eq(&other.coop_status.coop_identifier)
            && self.coop_status.contract_identifier.eq(&other.coop_status.contract_identifier)
    }
}

impl vstd::std_specs::cmp::PartialEqSpecImpl for Coop {
    open spec fn obeys_eq_spec() -> bool {
        true
    }

    open spec fn eq_spec(&self, other: &Self) -> bool {
        self.coop_status.coop_identifier@ == other.coop_status.coop_identifier@
            && self.coop_status.contract_identifier@ == other.coop_status.contract_identifier@
    }
}

/// All derived values of one coop at one instant, as the ranker and the
/// renderers consume them.
#[derive(Debug)]
pub struct CoopSnapshot {
    pub contract_identifier: String,
    pub coop_identifier: String,
    pub egg_goal: u64,
    pub shipped_eggs: u64,
    pub offline_eggs: u128,
    pub remaining_eggs: u64,
    pub shipping_rate: u128,
    /// `None` is the "duration unknown" sentinel of a coop that ships
    /// nothing.
    pub predicted_seconds_remaining: Option<u64>,
    pub total_predicted_duration: Option<i128>,
    pub finishing_time: Option<i128>,
    pub boosted_count: u32,
    pub total_tokens: u32,
    pub all_goals_achieved: bool,
}

impl CoopSnapshot {
    /// The predicted seconds as a definite number, or the typed error a
    /// caller renders as "unknown" instead of crashing on.
    pub fn definite_predicted_seconds(&self) -> (r: Result<u64, ComputationError>)
        ensures
            match self.predicted_seconds_remaining {
                Some(p) => r == Ok::<u64, ComputationError>(p),
                None => r == Err::<u64, ComputationError>(ComputationError::ZeroShippingRate),
            },
    {
        match self.predicted_seconds_remaining {
            Some(p) => Ok(p),
            None => Err(ComputationError::ZeroShippingRate),
        }
    }
}

impl Coop {
    /// All derived values at the given instant.
    pub fn snapshot(&self, now: i64) -> (r: CoopSnapshot)
        requires
            self.wf(),
        ensures
            r.contract_identifier@ == self.coop_status.contract_identifier@,
            r.coop_identifier@ == self.coop_status.coop_identifier@,
            r.egg_goal == goal_of(self.grade_spec),
            r.shipped_eggs == self.coop_status.total_amount,
            r.offline_eggs == sum_offline(self.coop_status.contributors@),
            r.remaining_eggs == self.spec_remaining(),
            r.shipping_rate == self.spec_rate(),
            r.predicted_seconds_remaining is Some <==> self.rate_known(),
            r.predicted_seconds_remaining matches Some(p) ==> p == self.spec_predicted(),
            r.total_predicted_duration is Some <==> self.rate_known(),
            r.total_predicted_duration matches Some(d) ==> d == self.spec_duration(),
            r.finishing_time is Some <==> self.rate_known(),
            r.finishing_time matches Some(t) ==> t == now + self.spec_finish_offset(),
            r.boosted_count == count_boosted(
                self.coop_status.contributors@,
                self.config.boost_threshold,
            ),
            r.total_tokens == sum_tokens(self.coop_status.contributors@),
            r.all_goals_achieved == self.coop_status.all_goals_achieved,
    {
        let predicted = self.predicted_seconds_remaining();
        let (duration, finish): (Option<i128>, Option<i128>) = match predicted {
            None => (None, None),
            Some(p) => {
                let d: i128 = self.contract_farm_max_secs_allowed as i128
                    - self.coop_status.seconds_remaining as i128 + p as i128
                    - self.coop_status.seconds_since_all_goals_achieved as i128;
                let f: i128 = now as i128 + p as i128
                    - self.coop_status.seconds_since_all_goals_achieved as i128;
                (Some(d), Some(f))
            },
        };
        CoopSnapshot {
            contract_identifier: self.coop_status.contract_identifier.clone(),
            coop_identifier: self.coop_status.coop_identifier.clone(),
            egg_goal: self.egg_goal(),
            shipped_eggs: self.coop_status.total_amount,
            offline_eggs: self.total_offline_eggs(),
            remaining_eggs: self.eggs_remaining(),
            shipping_rate: self.total_shipping_rate(),
            predicted_seconds_remaining: predicted,
            total_predicted_duration: duration,
            finishing_time: finish,
            boosted_count: self.boosted_count(),
            total_tokens: self.total_tokens(),
            all_goals_achieved: self.coop_status.all_goals_achieved,
        }
    }
}

/// Accept a status report as a coop session: the server must not have
/// rejected the pairing, and the contract must carry the report's grade.
pub fn accept_coop_status(coop_status: CoopStatus, contract: &Contract, config: EngineConfig) -> (r:
    Result<Coop, CoopError>)
    ensures
        coop_status.response_status != ResponseStatus::NoError ==> r == Err::<Coop, CoopError>(
            CoopError::DomainRejection,
        ),
        r is Err && r->Err_0 == CoopError::DomainRejection ==> coop_status.response_status
            != ResponseStatus::NoError,
        coop_status.response_status == ResponseStatus::NoError ==> match r {
            Ok(c) => {
                &&& c.coop_status == coop_status
                &&& c.config == config
                &&& c.contract_farm_max_secs_allowed == contract.length_seconds
                &&& c.grade_spec.grade == coop_status.grade
                &&& exists|i: int|
                    0 <= i < contract.grade_specs@.len()
                        && #[trigger] contract.grade_specs@[i].grade == coop_status.grade && (
                    forall|k: int| 0 <= k < i ==> contract.grade_specs@[k].grade
                        != coop_status.grade) && c.grade_spec.goals@
                        == contract.grade_specs@[i].goals@
            },
            Err(e) => e == CoopError::NoMatchingGrade && forall|k: int|
                0 <= k < contract.grade_specs@.len() ==> #[trigger] contract.grade_specs@[k].grade
                    != coop_status.grade,
        },
        status_wf(coop_status) ==> match r {
            Ok(c) => c.wf(),
            Err(_) => true,
        },
{
    match coop_status.response_status {
        ResponseStatus::NoError => match Coop::new(coop_status, contract, config) {
            Ok(c) => Ok(c),
            Err(_) => Err(CoopError::NoMatchingGrade),
        },
        _ => Err(CoopError::DomainRejection),
    }
}

/// Compute a full snapshot straight from a contract and a status report,
/// against the first grade spec matching the report's grade.
pub fn compute_snapshot(contract: &Contract, coop_status: CoopStatus, config: EngineConfig, now: i64)
    -> (r: Result<CoopSnapshot, ComputationError>)
    requires
        status_wf(coop_status),
    ensures
        r is Err ==> r->Err_0 == ComputationError::NoMatchingGrade && forall|k: int|
            0 <= k < contract.grade_specs@.len() ==> #[trigger] contract.grade_specs@[k].grade
                != coop_status.grade,
        r matches Ok(snap) ==> exists|i: int|
            {
                &&& 0 <= i < contract.grade_specs@.len()
                &&& #[trigger] contract.grade_specs@[i].grade == coop_status.grade
                &&& (forall|k: int|
                    0 <= k < i ==> contract.grade_specs@[k].grade != coop_status.grade)
                &&& ({
                    let gs = contract.grade_specs@[i];
                    &&& snap.egg_goal == goal_of(gs)
                    &&& snap.shipped_eggs == coop_status.total_amount
                    &&& snap.offline_eggs == sum_offline(coop_status.contributors@)
                    &&& snap.remaining_eggs == remaining_of(gs, coop_status)
                    &&& snap.shipping_rate == sum_rates(coop_status.contributors@)
                    &&& (snap.predicted_seconds_remaining is Some <==> sum_rates(
                        coop_status.contributors@,
                    ) > 0)
                    &&& (snap.predicted_seconds_remaining matches Some(p) ==> p == predicted_of(
                        gs,
                        coop_status,
                    ))
                    &&& (snap.total_predicted_duration matches Some(d) ==> d == duration_of(
                        gs,
                        coop_status,
                        contract.length_seconds as int,
                    ))
                    &&& (snap.finishing_time matches Some(t) ==> t == now + finish_offset_of(
                        gs,
                        coop_status,
                    ))
                    &&& snap.boosted_count == count_boosted(
                        coop_status.contributors@,
                        config.boost_threshold,
                    )
                    &&& snap.total_tokens == sum_tokens(coop_status.contributors@)
                })
            },
{
    match Coop::new(coop_status, contract, config) {
        Ok(c) => Ok(c.snapshot(now)),
        Err(e) => Err(e),
    }
}

/// Eggs still owed are never negative, whatever the goal, shipped and
/// offline amounts come to — including when offline production alone
/// exceeds the goal.
pub proof fn lemma_remaining_eggs_nonnegative(goal: int, shipped: int, offline: int)
    ensures
        remaining_int(goal, shipped, offline) >= 0,
{
}

/// A contributor without farm info contributes exactly 0 to the offline
/// egg total, whatever its contribution rate: dropping it from the list
/// leaves the total unchanged.
pub proof fn lemma_no_farm_info_contributes_zero(cs: Seq<Contributor>, i: int)
    requires
        0 <= i < cs.len(),
        cs[i].farm_info is None,
    ensures
        sum_offline(cs) == sum_offline(cs.remove(i)),
    decreases cs.len(),
{
    if i == cs.len() - 1 {
        assert(cs.remove(i) =~= cs.drop_last());
    } else {
        assert(cs.remove(i).drop_last() =~= cs.drop_last().remove(i));
        assert(cs.remove(i).last() == cs.last());
        assert(cs.drop_last()[i] == cs[i]);
        lemma_no_farm_info_contributes_zero(cs.drop_last(), i);
    }
}

} // verus!
