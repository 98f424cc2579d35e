//! The speedrun-update table: five fixed columns over ranked coops.

use vstd::prelude::*;
use crate::engine::Coop;
use crate::engine::finish_offset_of;
use crate::formatter::discord_table::DiscordTable;
use crate::formatter::discord_table::DiscordTableColumn;
use crate::formatter::discord_timestamp::DiscordTimestamp;
use crate::formatter::discord_timestamp::DiscordTimestampDisplay;
use crate::formatter::discord_timestamp::timestamp_display_seq;
use crate::formatter::duration::Duration;
use crate::formatter::duration::days_of;
use crate::formatter::duration::duration_format_seq;
use crate::formatter::string_formatter::StringAlignment;
use crate::formatter::string_formatter::dec_seq_nat;
use crate::formatter::string_formatter::u32_to_string;
use crate::ranker::boosted_key;
use crate::ranker::coops_wf;
use crate::ranker::tokens_key;

verus! {

/// The five cells of one coop's table row.  A coop that ships nothing has
/// no finite prediction; its duration and finish cells read `Unknown`.
pub open spec fn sruc_row_cells(c: Coop, now: int) -> Seq<Seq<char>> {
    seq![
        "[\u{29c9}](<https://eicoop-carpet.netlify.app/"@ + c.coop_status.contract_identifier@
            + "/"@ + c.coop_status.coop_identifier@ + ">) `"@ + crate::engine::stripped_id_seq(
            c.coop_status.coop_identifier@,
        ),
        dec_seq_nat(boosted_key(c)),
        dec_seq_nat(tokens_key(c)),
        if c.rate_known() {
            if days_of(c.spec_duration()) >= 100 {
                "Too long"@
            } else {
                duration_format_seq(c.spec_duration())
            }
        } else {
            "Unknown"@
        },
        if c.rate_known() {
            "`"@ + timestamp_display_seq(
                now + c.spec_finish_offset(),
                DiscordTimestampDisplay::FullDateTime,
            )
        } else {
            "Unknown"@
        },
    ]
}

/// Every coop of the list is well formed and its predictions, when
/// finite, fit signed 64-bit second counts from `now`.
pub open spec fn rows_fit(coops: Seq<Coop>, now: int) -> bool {
    &&& coops_wf(coops)
    &&& forall|i: int|
        0 <= i < coops.len() ==> (#[trigger] coops[i]).duration_fits() && (coops[i].rate_known()
            ==> i64::MIN <= now + coops[i].spec_finish_offset() <= i64::MAX)
}

/// Runtime check for [`rows_fit`], for callers whose coops came from
/// outside and whose clock reading is arbitrary.
pub fn rows_fit_check(coops: &Vec<Coop>, now: i64) -> (r: bool)
    ensures
        r == rows_fit(coops@, now as int),
{
    let mut i: usize = 0;
    while i < coops.len()
        invariant
            i <= coops@.len(),
            forall|k: int| 0 <= k < i ==> (#[trigger] coops@[k]).wf(),
            forall|k: int| 0 <= k < i ==> (#[trigger] coops@[k]).duration_fits(),
            forall|k: int|
                0 <= k < i ==> ((#[trigger] coops@[k]).rate_known() ==> i64::MIN <= now
                    + coops@[k].spec_finish_offset() <= i64::MAX),
        decreases coops@.len() - i,
    {
        let c = &coops[i];
        if !c.coop_status.is_well_formed() {
            assert(!coops@[i as int].wf());
            return false;
        }
        if c.grade_spec.grade != c.coop_status.grade {
            assert(!coops@[i as int].wf());
            return false;
        }
        assert(coops@[i as int].wf());
        match crate::engine::predicted_for(&c.grade_spec, &c.coop_status) {
            None => {
                assert(!coops@[i as int].rate_known());
            },
            Some(p) => {
                let duration: i128 = c.contract_farm_max_secs_allowed as i128
                    - c.coop_status.seconds_remaining as i128 + p as i128
                    - c.coop_status.seconds_since_all_goals_achieved as i128;
                if duration < i64::MIN as i128 || duration > i64::MAX as i128 {
                    assert(!coops@[i as int].duration_fits());
                    return false;
                }
                let finish: i128 = now as i128 + p as i128
                    - c.coop_status.seconds_since_all_goals_achieved as i128;
                if finish < i64::MIN as i128 || finish > i64::MAX as i128 {
                    assert(coops@[i as int].rate_known() && !(i64::MIN <= now
                        + coops@[i as int].spec_finish_offset() <= i64::MAX));
                    return false;
                }
            },
        }
        i = i + 1;
    }
    true
}

/// Render the five cells of one coop.
pub fn sruc_coop_row(c: &Coop, now: i64) -> (r: Vec<String>)
    requires
        c.wf(),
        c.duration_fits(),
        c.rate_known() ==> i64::MIN <= now + c.spec_finish_offset() <= i64::MAX,
    ensures
        r.deep_view() == sruc_row_cells(*c, now as int),
{
    let mut name = String::new();
    name.append("[\u{29c9}](<https://eicoop-carpet.netlify.app/");
    name.append(c.contract_id().as_str());
    name.append("/");
    name.append(c.coop_id().as_str());
    name.append(">) `");
    let stripped = c.stripped_coop_id();
    name.append(stripped.as_str());

    let boosted = u32_to_string(c.boosted_count());
    let tokens = u32_to_string(c.total_tokens());

    let duration: String = match c.total_predicted_duration() {
        None => "Unknown".to_owned(),
        Some(d) => d.format_too_long(),
    };
    let finish: String = match c.finishing_time(now) {
        None => "Unknown".to_owned(),
        Some(t) => {
            let mut cell = String::new();
            cell.append("`");
            let tag = t.display(DiscordTimestampDisplay::FullDateTime);
            cell.append(tag.as_str());
            cell
        },
    };

    let mut row: Vec<String> = Vec::new();
    row.push(name);
    row.push(boosted);
    row.push(tokens);
    row.push(duration);
    row.push(finish);
    proof {
        assert(row.deep_view() =~= sruc_row_cells(*c, now as int));
    }
    row
}

/// The speedrun-update table: fixed columns, rows added per coop.
#[derive(Debug)]
pub struct SrucTable {
    pub table: DiscordTable,
}

impl SrucTable {
    /// The fixed five-column layout.
    pub fn new() -> (r: SrucTable)
        ensures
            r.table.spec_columns().len() == 5,
            r.table.spec_columns()[0].name@ == "Coop"@ && r.table.spec_columns()[0].width == 8
                && r.table.spec_columns()[0].alignment == StringAlignment::Centered,
            r.table.spec_columns()[1].name@ == "Boosted"@ && r.table.spec_columns()[1].width == 9
                && r.table.spec_columns()[1].alignment == StringAlignment::Centered,
            r.table.spec_columns()[2].name@ == "Tokens"@ && r.table.spec_columns()[2].width == 8
                && r.table.spec_columns()[2].alignment == StringAlignment::Centered,
            r.table.spec_columns()[3].name@ == "Duration"@ && r.table.spec_columns()[3].width == 10
                && r.table.spec_columns()[3].alignment == StringAlignment::Centered,
            r.table.spec_columns()[4].name@ == "Finish"@ && r.table.spec_columns()[4].width == 20
                && r.table.spec_columns()[4].alignment == StringAlignment::Centered,
            r.table.spec_rows().len() == 0,
    {
        let mut table = DiscordTable::new();
        table.add_column(DiscordTableColumn::new("Coop", 8, StringAlignment::Centered));
        table.add_column(DiscordTableColumn::new("Boosted", 9, StringAlignment::Centered));
        table.add_column(DiscordTableColumn::new("Tokens", 8, StringAlignment::Centered));
        table.add_column(DiscordTableColumn::new("Duration", 10, StringAlignment::Centered));
        table.add_column(DiscordTableColumn::new("Finish", 20, StringAlignment::Centered));
        SrucTable { table }
    }

    /// Render and append one row per coop, in the coops' order.
    pub fn add_coops(&mut self, coops: &Vec<Coop>, now: i64)
        requires
            rows_fit(coops@, now as int),
        ensures
            final(self).table.spec_columns() == old(self).table.spec_columns(),
            final(self).table.spec_rows() =~= old(self).table.spec_rows() + Seq::new(
                coops@.len(),
                |i: int| sruc_row_cells(coops@[i], now as int),
            ),
    {
        let mut rows: Vec<Vec<String>> = Vec::new();
        let mut i: usize = 0;
        while i < coops.len()
            invariant
                rows_fit(coops@, now as int),
                i <= coops@.len(),
                rows.deep_view() =~= Seq::new(i as nat, |k: int| sruc_row_cells(coops@[k], now as int)),
            decreases coops@.len() - i,
        {
            let ghost pre = rows.deep_view();
            let row = sruc_coop_row(&coops[i], now);
            rows.push(row);
            proof {
                assert forall|k: int| 0 <= k < pre.len() implies #[trigger] rows.deep_view()[k]
                    == pre[k] by {
                }
                assert(rows.deep_view()[pre.len() as int] == sruc_row_cells(
                    coops@[i as int],
                    now as int,
                ));
                assert(rows.deep_view() =~= Seq::new(
                    i as nat + 1,
                    |k: int| sruc_row_cells(coops@[k], now as int),
                ));
            }
            i = i + 1;
        }
        self.table.add_data_rows(&rows);
    }
}

} // verus!
