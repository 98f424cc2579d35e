//! Records of the external "active coop codes" aggregation service, and
//! the selection of codes from one of its responses.

use vstd::prelude::*;
use crate::coop_flag::CoopFlag;
use crate::error::EmptyMajResponse;

verus! {

/// One coop record of the aggregation service.
#[derive(Debug)]
pub struct MajCoops {
    pub coop_flags: CoopFlag,
    pub code: String,
}

/// One per-contract response of the aggregation service.
#[derive(Debug)]
pub struct MajCoopsResponse {
    pub start_time: String,
    pub active_coops: bool,
    pub coops: Vec<MajCoops>,
}

/// The codes of the records carrying exactly the wanted flag, in order.
pub open spec fn codes_matching(coops: Seq<MajCoops>, flag: CoopFlag) -> Seq<Seq<char>>
    decreases coops.len(),
{
    if coops.len() == 0 {
        Seq::empty()
    } else {
        let rest = codes_matching(coops.drop_last(), flag);
        if coops.last().coop_flags == flag {
            rest.push(coops.last().code@)
        } else {
            rest
        }
    }
}

/// The service answers with a list of responses; only its first entry is
/// consulted, and an empty list is a typed error.
pub fn first_maj_response(responses: &Vec<MajCoopsResponse>) -> (r: Result<
    &MajCoopsResponse,
    EmptyMajResponse,
>)
    ensures
        match r {
            Ok(first) => responses@.len() > 0 && first == &responses@[0],
            Err(_) => responses@.len() == 0,
        },
{
    if responses.len() == 0 {
        Err(EmptyMajResponse)
    } else {
        Ok(&responses[0])
    }
}

/// The active coop codes of a response that carry the wanted flag; no
/// codes at all when the response reports no active coops.
pub fn active_coop_codes(response: &MajCoopsResponse, coop_flag: CoopFlag) -> (r: Vec<String>)
    ensures
        !response.active_coops ==> r@.len() == 0,
        response.active_coops ==> r.deep_view() == codes_matching(response.coops@, coop_flag),
{
    if !response.active_coops {
        return Vec::new();
    }
    let mut out: Vec<String> = Vec::new();
    let mut i: usize = 0;
    proof {
        assert(response.coops@.take(0int) =~= Seq::<MajCoops>::empty());
        assert(out.deep_view() =~= codes_matching(response.coops@.take(0int), coop_flag));
    }
    while i < response.coops.len()
        invariant
            i <= response.coops@.len(),
            out.deep_view() == codes_matching(response.coops@.take(i as int), coop_flag),
        decreases response.coops@.len() - i,
    {
        proof {
            assert(response.coops@.take(i as int + 1).drop_last() =~= response.coops@.take(
                i as int,
            ));
            assert(response.coops@.take(i as int + 1).last() == response.coops@[i as int]);
        }
        let ghost pre = out.deep_view();
        if response.coops[i].coop_flags == coop_flag {
            out.push(response.coops[i].code.clone());
            proof {
                assert forall|k: int| 0 <= k < pre.len() implies #[trigger] out.deep_view()[k]
                    == pre[k] by {
                }
                assert(out.deep_view()[pre.len() as int] == response.coops@[i as int].code@);
                assert(out.deep_view() =~= pre.push(response.coops@[i as int].code@));
            }
        }
        i = i + 1;
    }
    proof {
        assert(response.coops@.take(response.coops@.len() as int) =~= response.coops@);
    }
    out
}

/// One entry of the community backup store: a contract id and its
/// base64-encoded definition.
#[derive(Debug)]
pub struct BackupContract {
    pub id: String,
    pub proto: String,
}

/// Find the newest backup of a contract: entries are stored oldest first,
/// so the last entry with the wanted id wins.
pub fn find_backup_proto(entries: &Vec<BackupContract>, id: &String) -> (r: Option<usize>)
    ensures
        match r {
            Some(i) => 0 <= i < entries@.len() && entries@[i as int].id@ == id@ && forall|k: int|
                i < k < entries@.len() ==> entries@[k].id@ != id@,
            None => forall|k: int| 0 <= k < entries@.len() ==> entries@[k].id@ != id@,
        },
{
    let mut i: usize = entries.len();
    while i > 0
        invariant
            i <= entries@.len(),
            forall|k: int| i <= k < entries@.len() ==> entries@[k].id@ != id@,
        decreases i,
    {
        i = i - 1;
        if entries[i].id.eq(id) {
            return Some(i);
        }
    }
    None
}

} // verus!
