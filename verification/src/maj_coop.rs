//! A coop paired with its contract for rendering one leaderboard table
//! row, looking its grade spec up on demand.

use vstd::prelude::*;
use vstd::string::StrSliceExecFns;
use crate::engine::EngineConfig;
use crate::engine::duration_of;
use crate::engine::find_grade_spec;
use crate::engine::finish_offset_of;
use crate::engine::goal_of;
use crate::engine::has_grade_spec;
use crate::engine::is_first_grade_index;
use crate::engine::max_goal_amount;
use crate::engine::predicted_for;
use crate::engine::stripped_id_seq;
use crate::error::ComputationError;
use crate::formatter::discord_timestamp::DiscordTimestamp;
use crate::formatter::discord_timestamp::DiscordTimestampDisplay;
use crate::formatter::duration::Duration;
use crate::formatter::duration::days_of;
use crate::formatter::duration::hours_of;
use crate::formatter::duration::minutes_of;
use crate::formatter::string_formatter::append_i64_decimal;
use crate::formatter::string_formatter::dec_seq_int;
use crate::formatter::string_formatter::dec_seq_nat;
use crate::formatter::string_formatter::u32_to_string;
use crate::formatter::discord_timestamp::timestamp_display_seq;
use crate::model::Contract;
use crate::model::CoopStatus;
use crate::model::count_boosted;
use crate::model::lemma_count_boosted_bound;
use crate::model::status_wf;
use crate::model::sum_rates;
use crate::model::sum_tokens;

verus! {

/// The `XdYhZm` rendering with every component shown, zero or not.
pub open spec fn dhm_seq(d: int) -> Seq<char> {
    dec_seq_int(days_of(d)) + "d"@ + dec_seq_int(hours_of(d)) + "h"@ + dec_seq_int(minutes_of(d))
        + "m"@
}

/// Render a duration as days, hours and minutes, all components shown.
pub fn format_dhm(d: i64) -> (r: String)
    ensures
        r@ == dhm_seq(d as int),
{
    let dur = Duration::new(d);
    let mut out = String::new();
    append_i64_decimal(&mut out, dur.calc_days());
    out.append("d");
    append_i64_decimal(&mut out, dur.calc_hours());
    out.append("h");
    append_i64_decimal(&mut out, dur.calc_minutes());
    out.append("m");
    proof {
        assert(out@ =~= dhm_seq(d as int));
    }
    out
}

/// A coop report paired with its contract, as one leaderboard row.
#[derive(Debug)]
pub struct MajCoop {
    pub contract: Contract,
    pub coop: CoopStatus,
    pub config: EngineConfig,
}

/// One rendered table row, against the grade spec `gs`.
pub open spec fn maj_row_seq(c: MajCoop, gs: crate::model::GradeSpec, now: int) -> Seq<char> {
    "[\u{29c9}](<https://eicoop-carpet.netlify.app/"@ + c.coop.contract_identifier@ + "/"@
        + c.coop.coop_identifier@ + ">)`"@ + stripped_id_seq(c.coop.coop_identifier@) + " |   "@
        + dec_seq_nat(count_boosted(c.coop.contributors@, c.config.boost_threshold)) + "   |  "@
        + dec_seq_nat(sum_tokens(c.coop.contributors@)) + "  |   "@ + dhm_seq(
        duration_of(gs, c.coop, c.contract.length_seconds as int),
    ) + "   | "@ + "`"@ + timestamp_display_seq(
        now + finish_offset_of(gs, c.coop),
        DiscordTimestampDisplay::FullDateTime,
    ) + "`"@ + " `"@
}

impl MajCoop {
    /// The predicted duration against the first matching grade spec, when
    /// it exists and is finite, fits a signed 64-bit count of seconds.
    pub open spec fn duration_fits(self) -> bool {
        forall|i: int|
            is_first_grade_index(self.contract, self.coop.grade, i) && sum_rates(
                self.coop.contributors@,
            ) > 0 ==> i64::MIN <= duration_of(
                #[trigger] self.contract.grade_specs@[i],
                self.coop,
                self.contract.length_seconds as int,
            ) <= i64::MAX
    }

    /// The predicted finishing instant, from `now`, fits a signed 64-bit
    /// count of seconds.
    pub open spec fn finish_fits(self, now: int) -> bool {
        forall|i: int|
            is_first_grade_index(self.contract, self.coop.grade, i) && sum_rates(
                self.coop.contributors@,
            ) > 0 ==> i64::MIN <= now + finish_offset_of(
                #[trigger] self.contract.grade_specs@[i],
                self.coop,
            ) <= i64::MAX
    }

    pub fn new(contract: Contract, coop: CoopStatus, config: EngineConfig) -> (r: Self)
        ensures
            r.contract == contract,
            r.coop == coop,
            r.config == config,
    {
        Self { contract, coop, config }
    }

    pub fn contract_id(&self) -> (r: String)
        ensures
            r@ == self.coop.contract_identifier@,
    {
        self.coop.contract_identifier.clone()
    }

    pub fn coop_id(&self) -> (r: String)
        ensures
            r@ == self.coop.coop_identifier@,
    {
        self.coop.coop_identifier.clone()
    }

    /// The first six characters of the coop id, space-padded when the id
    /// is shorter.
    pub fn stripped_coop_id(&self) -> (r: String)
        ensures
            r@ == stripped_id_seq(self.coop.coop_identifier@),
    {
        let id = self.coop.coop_identifier.as_str();
        let n = id.unicode_len();
        if n >= 6 {
            id.substring_char(0, 6).to_owned()
        } else {
            crate::formatter::string_formatter::left_align(id, 6)
        }
    }

    /// Players that spent at least the configured token threshold.
    pub fn boosted_count(&self) -> (r: u32)
        requires
            status_wf(self.coop),
        ensures
            r == count_boosted(self.coop.contributors@, self.config.boost_threshold),
    {
        proof {
            lemma_count_boosted_bound(self.coop.contributors@, self.config.boost_threshold);
        }
        let n = self.coop.count_boosted_players(self.config.boost_threshold);
        n as u32
    }

    /// Boost tokens held plus spent, over the whole coop.
    pub fn total_tokens(&self) -> (r: u32)
        requires
            status_wf(self.coop),
        ensures
            r == sum_tokens(self.coop.contributors@),
    {
        let t = self.coop.total_token_sum();
        t as u32
    }

    /// The contract's egg goal for this coop's grade; an error when the
    /// contract carries no spec of that grade.
    pub fn get_contract_egg_goal(&self) -> (r: Result<u64, ComputationError>)
        ensures
            r is Err ==> r == Err::<u64, ComputationError>(ComputationError::NoMatchingGrade)
                && !has_grade_spec(self.contract, self.coop.grade),
            r matches Ok(g) ==> exists|i: int|
                #![auto]
                is_first_grade_index(self.contract, self.coop.grade, i) && g == goal_of(
                    self.contract.grade_specs@[i],
                ),
    {
        match find_grade_spec(&self.contract, self.coop.grade) {
            None => Err(ComputationError::NoMatchingGrade),
            Some(i) => {
                let g = max_goal_amount(&self.contract.grade_specs[i].goals);
                proof {
                    assert(is_first_grade_index(self.contract, self.coop.grade, i as int));
                }
                Ok(g)
            },
        }
    }

    /// The predicted total duration, rendered as days, hours and minutes.
    pub fn total_duration(&self) -> (r: Result<String, ComputationError>)
        requires
            status_wf(self.coop),
            self.duration_fits(),
        ensures
            !has_grade_spec(self.contract, self.coop.grade) ==> r == Err::<String, ComputationError>(
                ComputationError::NoMatchingGrade,
            ),
            has_grade_spec(self.contract, self.coop.grade) && sum_rates(self.coop.contributors@)
                == 0 ==> r == Err::<String, ComputationError>(ComputationError::ZeroShippingRate),
            has_grade_spec(self.contract, self.coop.grade) && sum_rates(self.coop.contributors@)
                > 0 ==> r is Ok,
            r matches Ok(s) ==> exists|i: int|
                #![auto]
                is_first_grade_index(self.contract, self.coop.grade, i) && sum_rates(
                    self.coop.contributors@,
                ) > 0 && s@ == dhm_seq(
                    duration_of(
                        self.contract.grade_specs@[i],
                        self.coop,
                        self.contract.length_seconds as int,
                    ),
                ),
    {
        match find_grade_spec(&self.contract, self.coop.grade) {
            None => Err(ComputationError::NoMatchingGrade),
            Some(i) => {
                let gs = &self.contract.grade_specs[i];
                match predicted_for(gs, &self.coop) {
                    None => Err(ComputationError::ZeroShippingRate),
                    Some(p) => {
                        let total: i128 = self.contract.length_seconds as i128
                            - self.coop.seconds_remaining as i128 + p as i128
                            - self.coop.seconds_since_all_goals_achieved as i128;
                        proof {
                            assert(is_first_grade_index(self.contract, self.coop.grade, i as int));
                        }
                        Ok(format_dhm(total as i64))
                    },
                }
            },
        }
    }

    /// The absolute instant of the predicted finish, given the current
    /// Unix time.
    pub fn finishing_time(&self, now: i64) -> (r: Result<DiscordTimestamp, ComputationError>)
        requires
            status_wf(self.coop),
            self.finish_fits(now as int),
        ensures
            !has_grade_spec(self.contract, self.coop.grade) ==> r == Err::<
                DiscordTimestamp,
                ComputationError,
            >(ComputationError::NoMatchingGrade),
            has_grade_spec(self.contract, self.coop.grade) && sum_rates(self.coop.contributors@)
                == 0 ==> r == Err::<DiscordTimestamp, ComputationError>(
                ComputationError::ZeroShippingRate,
            ),
            has_grade_spec(self.contract, self.coop.grade) && sum_rates(self.coop.contributors@)
                > 0 ==> r is Ok,
            r matches Ok(t) ==> exists|i: int|
                #![auto]
                is_first_grade_index(self.contract, self.coop.grade, i) && sum_rates(
                    self.coop.contributors@,
                ) > 0 && t.time == now + finish_offset_of(
                    self.contract.grade_specs@[i],
                    self.coop,
                ),
    {
        match find_grade_spec(&self.contract, self.coop.grade) {
            None => Err(ComputationError::NoMatchingGrade),
            Some(i) => {
                let gs = &self.contract.grade_specs[i];
                match predicted_for(gs, &self.coop) {
                    None => Err(ComputationError::ZeroShippingRate),
                    Some(p) => {
                        let t: i128 = now as i128 + p as i128
                            - self.coop.seconds_since_all_goals_achieved as i128;
                        proof {
                            assert(is_first_grade_index(self.contract, self.coop.grade, i as int));
                        }
                        Ok(DiscordTimestamp::new(t as i64))
                    },
                }
            },
        }
    }

    /// One full leaderboard table row for this coop.
    pub fn build_table_row(&self, now: i64) -> (r: Result<String, ComputationError>)
        requires
            status_wf(self.coop),
            self.duration_fits(),
            self.finish_fits(now as int),
        ensures
            !has_grade_spec(self.contract, self.coop.grade) ==> r == Err::<String, ComputationError>(
                ComputationError::NoMatchingGrade,
            ),
            has_grade_spec(self.contract, self.coop.grade) && sum_rates(self.coop.contributors@)
                == 0 ==> r == Err::<String, ComputationError>(ComputationError::ZeroShippingRate),
            has_grade_spec(self.contract, self.coop.grade) && sum_rates(self.coop.contributors@)
                > 0 ==> r is Ok,
            r matches Ok(s) ==> exists|i: int|
                #![auto]
                is_first_grade_index(self.contract, self.coop.grade, i) && sum_rates(
                    self.coop.contributors@,
                ) > 0 && s@ == maj_row_seq(*self, self.contract.grade_specs@[i], now as int),
    {
        let duration = match self.total_duration() {
            Err(e) => {
                return Err(e);
            },
            Ok(s) => s,
        };
        let finish = match self.finishing_time(now) {
            Err(e) => {
                return Err(e);
            },
            Ok(t) => t,
        };
        let boosted = self.boosted_count();
        let tokens = self.total_tokens();
        let mut out = String::new();
        out.append("[\u{29c9}](<https://eicoop-carpet.netlify.app/");
        out.append(self.coop.contract_identifier.as_str());
        out.append("/");
        out.append(self.coop.coop_identifier.as_str());
        out.append(">)`");
        let stripped = self.stripped_coop_id();
        out.append(stripped.as_str());
        out.append(" |   ");
        let boosted_str = u32_to_string(boosted);
        out.append(boosted_str.as_str());
        out.append("   |  ");
        let tokens_str = u32_to_string(tokens);
        out.append(tokens_str.as_str());
        out.append("  |   ");
        out.append(duration.as_str());
        out.append("   | ");
        out.append("`");
        let finish_str = finish.display(DiscordTimestampDisplay::FullDateTime);
        out.append(finish_str.as_str());
        out.append("`");
        out.append(" `");
        proof {
            let i = choose|i: int|
                #![auto]
                is_first_grade_index(self.contract, self.coop.grade, i) && sum_rates(
                    self.coop.contributors@,
                ) > 0 && duration@ == dhm_seq(
                    duration_of(
                        self.contract.grade_specs@[i],
                        self.coop,
                        self.contract.length_seconds as int,
                    ),
                );
            let j = choose|j: int|
                #![auto]
                is_first_grade_index(self.contract, self.coop.grade, j) && sum_rates(
                    self.coop.contributors@,
                ) > 0 && finish.time == now + finish_offset_of(
                    self.contract.grade_specs@[j],
                    self.coop,
                );
            assert(j == i);
            assert(finish.time == now + finish_offset_of(
                self.contract.grade_specs@[i],
                self.coop,
            ));
            assert(out@ =~= maj_row_seq(*self, self.contract.grade_specs@[i], now as int));
        }
        Ok(out)
    }
}

} // verus!
