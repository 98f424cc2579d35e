//! The leaderboard order: predicted total duration first (unknown
//! durations last), then boosted players descending, then total tokens
//! descending, then predicted finishing instant.
//!
//! The relation is a total preorder: any two coops compare, the order is
//! transitive, and two coops tied on all four keys are interchangeable.

use vstd::prelude::*;
use vstd::seq_lib::group_to_multiset_ensures;
use vstd::seq_lib::to_multiset_insert;
use crate::engine::Coop;
use crate::model::count_boosted;
use crate::model::sum_tokens;

verus! {

broadcast use group_to_multiset_ensures;

/// Boosted-player count of a coop, under its own configuration.
pub open spec fn boosted_key(c: Coop) -> int {
    count_boosted(c.coop_status.contributors@, c.config.boost_threshold)
}

/// Total boost tokens of a coop.
pub open spec fn tokens_key(c: Coop) -> int {
    sum_tokens(c.coop_status.contributors@)
}

/// Strictly sooner by predicted total duration; a coop with a known
/// duration sorts before one whose duration is unknown.
pub open spec fn dur_lt(a: Coop, b: Coop) -> bool {
    ||| (a.rate_known() && !b.rate_known())
    ||| (a.rate_known() && b.rate_known() && a.spec_duration() < b.spec_duration())
}

/// Equal on the duration key: both unknown, or both known and equal.
pub open spec fn dur_eq(a: Coop, b: Coop) -> bool {
    a.rate_known() == b.rate_known() && (a.rate_known() ==> a.spec_duration()
        == b.spec_duration())
}

/// Strictly sooner by predicted finishing instant (only known finishes
/// compare; unknown ones are already tied on the duration key).
pub open spec fn fin_lt(a: Coop, b: Coop) -> bool {
    a.rate_known() && b.rate_known() && a.spec_finish_offset() < b.spec_finish_offset()
}

/// Equal on the finishing-instant key.
pub open spec fn fin_eq(a: Coop, b: Coop) -> bool {
    a.rate_known() == b.rate_known() && (a.rate_known() ==> a.spec_finish_offset()
        == b.spec_finish_offset())
}

/// `a` ranks strictly before `b`.
pub open spec fn rank_lt(a: Coop, b: Coop) -> bool {
    ||| dur_lt(a, b)
    ||| (dur_eq(a, b) && boosted_key(a) > boosted_key(b))
    ||| (dur_eq(a, b) && boosted_key(a) == boosted_key(b) && tokens_key(a) > tokens_key(b))
    ||| (dur_eq(a, b) && boosted_key(a) == boosted_key(b) && tokens_key(a) == tokens_key(b)
        && fin_lt(a, b))
}

/// `a` and `b` are tied on all four keys.
pub open spec fn rank_tie(a: Coop, b: Coop) -> bool {
    &&& dur_eq(a, b)
    &&& boosted_key(a) == boosted_key(b)
    &&& tokens_key(a) == tokens_key(b)
    &&& fin_eq(a, b)
}

/// `a` ranks no later than `b`.
pub open spec fn rank_le(a: Coop, b: Coop) -> bool {
    rank_lt(a, b) || rank_tie(a, b)
}

/// Any two coops compare: the order is total.
pub proof fn lemma_rank_total(a: Coop, b: Coop)
    ensures
        rank_le(a, b) || rank_le(b, a),
{
}

/// The order is transitive.
pub proof fn lemma_rank_trans(a: Coop, b: Coop, c: Coop)
    requires
        rank_le(a, b),
        rank_le(b, c),
    ensures
        rank_le(a, c),
{
}

/// Two coops each ranking no later than the other are tied on all four
/// keys; strict precedence and a tie never hold together.
pub proof fn lemma_rank_antisymmetric_up_to_tie(a: Coop, b: Coop)
    ensures
        rank_le(a, b) && rank_le(b, a) ==> rank_tie(a, b),
        !(rank_lt(a, b) && rank_tie(a, b)),
        !(rank_lt(a, b) && rank_lt(b, a)),
{
}

/// Coops tied on all four keys are interchangeable in the order: swapping
/// one for the other changes no comparison, so their relative placement is
/// a matter of input order alone (equal rank).
pub proof fn lemma_tie_substitution(a: Coop, b: Coop, c: Coop)
    requires
        rank_tie(a, b),
    ensures
        rank_le(a, c) == rank_le(b, c),
        rank_le(c, a) == rank_le(c, b),
        rank_tie(b, a),
{
}

/// The four sort keys of one coop, as machine words.  The duration and
/// finish fields carry meaning only when `known` is set.
struct RankKey {
    known: bool,
    duration: i128,
    boosted: u32,
    tokens: u32,
    finish: i128,
}

fn rank_key(c: &Coop) -> (r: RankKey)
    requires
        c.wf(),
    ensures
        r.known == c.rate_known(),
        r.known ==> r.duration == c.spec_duration(),
        r.boosted == boosted_key(*c),
        r.tokens == tokens_key(*c),
        r.known ==> r.finish == c.spec_finish_offset(),
{
    match c.predicted_seconds_remaining() {
        None => RankKey {
            known: false,
            duration: 0,
            boosted: c.boosted_count(),
            tokens: c.total_tokens(),
            finish: 0,
        },
        Some(p) => {
            let duration: i128 = c.contract_farm_max_secs_allowed as i128
                - c.coop_status.seconds_remaining as i128 + p as i128
                - c.coop_status.seconds_since_all_goals_achieved as i128;
            let finish: i128 = p as i128 - c.coop_status.seconds_since_all_goals_achieved as i128;
            RankKey {
                known: true,
                duration,
                boosted: c.boosted_count(),
                tokens: c.total_tokens(),
                finish,
            }
        },
    }
}

/// Whether `a` ranks no later than `b`.
pub fn ranks_no_later(a: &Coop, b: &Coop) -> (r: bool)
    requires
        a.wf(),
        b.wf(),
    ensures
        r == rank_le(*a, *b),
{
    let ka = rank_key(a);
    let kb = rank_key(b);
    if ka.known != kb.known {
        // A known duration sorts before an unknown one.
        ka.known
    } else if ka.known && ka.duration != kb.duration {
        ka.duration < kb.duration
    } else if ka.boosted != kb.boosted {
        ka.boosted > kb.boosted
    } else if ka.tokens != kb.tokens {
        ka.tokens > kb.tokens
    } else if ka.known {
        ka.finish <= kb.finish
    } else {
        true
    }
}

/// The whole sequence is ordered by the ranking relation.
pub open spec fn coops_sorted(s: Seq<Coop>) -> bool {
    forall|i: int, j: int| 0 <= i < j < s.len() ==> rank_le(#[trigger] s[i], #[trigger] s[j])
}

/// Every coop of the sequence is well formed.
pub open spec fn coops_wf(s: Seq<Coop>) -> bool {
    forall|i: int| 0 <= i < s.len() ==> (#[trigger] s[i]).wf()
}

/// Sort coops into leaderboard order.  The sort is stable in the strong
/// sense that an already-sorted input comes back unchanged — so sorting
/// twice yields an identical sequence, and fully tied coops keep their
/// input order.
pub fn rank_sort(v: &mut Vec<Coop>)
    requires
        coops_wf(old(v)@),
    ensures
        final(v)@.len() == old(v)@.len(),
        final(v)@.to_multiset() == old(v)@.to_multiset(),
        coops_sorted(final(v)@),
        coops_wf(final(v)@),
        coops_sorted(old(v)@) ==> final(v)@ == old(v)@,
{
    if v.len() <= 1 {
        proof {
            if old(v)@.len() == 1 {
                assert(coops_sorted(old(v)@));
            }
        }
        return ;
    }
    let ghost orig = old(v)@;
    let mut i: usize = 1;
    while i < v.len()
        invariant
            1 <= i <= v@.len(),
            v@.len() == orig.len(),
            v@.to_multiset() == orig.to_multiset(),
            coops_wf(v@),
            coops_sorted(v@.take(i as int)),
            coops_sorted(orig) ==> v@ == orig,
        decreases v@.len() - i,
    {
        let ghost pre = v@;
        let x = v.remove(i);
        let ghost mid = v@;
        proof {
            assert(mid =~= pre.remove(i as int));
            assert(forall|k: int| 0 <= k < i ==> mid[k] == pre[k]);
            assert(x.wf());
            assert(coops_wf(mid)) by {
                assert(forall|k: int|
                    0 <= k < mid.len() ==> mid[k] == (if k < i {
                        pre[k]
                    } else {
                        pre[k + 1]
                    }));
            }
        }
        let mut p: usize = 0;
        let mut done: bool = false;
        while p < i && !done
            invariant
                0 <= p <= i,
                i < pre.len(),
                v@ == mid,
                mid.len() == pre.len() - 1,
                coops_wf(mid),
                x.wf(),
                forall|k: int| 0 <= k < p ==> rank_le(#[trigger] mid[k], x),
                done ==> p < i && !rank_le(mid[p as int], x),
            decreases i - p + (if done {
                0int
            } else {
                1int
            }),
        {
            if ranks_no_later(&v[p], &x) {
                p = p + 1;
            } else {
                done = true;
            }
        }
        v.insert(p, x);
        proof {
            let post = v@;
            assert(post =~= mid.insert(p as int, x));
            to_multiset_insert(mid, p as int, x);
            assert(pre[i as int] == x);
            assert(post.to_multiset() =~= pre.to_multiset()) by {
                assert(mid.to_multiset() =~= pre.to_multiset().remove(x));
                assert(post.to_multiset() =~= pre.to_multiset().remove(x).insert(x));
                assert(pre.to_multiset().count(x) > 0) by {
                    assert(pre.contains(x));
                }
            }
            assert(coops_wf(post)) by {
                assert(forall|k: int|
                    0 <= k < post.len() ==> post[k] == (if k < p {
                        mid[k]
                    } else if k == p {
                        x
                    } else {
                        mid[k - 1]
                    }));
            }
            // The prefix of length i + 1 is sorted: entries below p keep
            // their order and rank no later than x; entries above p ranked
            // no later than nothing, so x ranks before them.
            assert(coops_sorted(post.take(i as int + 1))) by {
                assert(forall|k: int| 0 <= k < i ==> mid[k] == pre[k]);
                assert(coops_sorted(pre.take(i as int)));
                assert forall|k: int| p <= k < i implies rank_le(x, mid[k]) by {
                    if done {
                        lemma_rank_total(mid[p as int], x);
                        assert(rank_le(x, mid[p as int]));
                        if k > p {
                            assert(rank_le(pre.take(i as int)[p as int], pre.take(i as int)[k]));
                            assert(rank_le(mid[p as int], mid[k]));
                            lemma_rank_trans(x, mid[p as int], mid[k]);
                        }
                    }
                }
                assert forall|a: int, b: int|
                    0 <= a < b < i + 1 implies rank_le(
                    #[trigger] post.take(i as int + 1)[a],
                    #[trigger] post.take(i as int + 1)[b],
                ) by {
                    let s = post.take(i as int + 1);
                    assert(forall|k: int|
                        0 <= k < i + 1 ==> s[k] == (if k < p {
                            mid[k]
                        } else if k == p {
                            x
                        } else {
                            mid[k - 1]
                        }));
                    assert(forall|a2: int, b2: int|
                        0 <= a2 < b2 < i ==> rank_le(#[trigger] mid[a2], #[trigger] mid[b2])) by {
                        assert(forall|a2: int, b2: int|
                            0 <= a2 < b2 < i ==> rank_le(
                                #[trigger] pre.take(i as int)[a2],
                                #[trigger] pre.take(i as int)[b2],
                            ));
                    }
                }
            }
            // An already-sorted input is reassembled exactly.
            if coops_sorted(orig) {
                assert(pre == orig);
                assert(forall|k: int| 0 <= k < i ==> rank_le(#[trigger] mid[k], x)) by {
                    assert(forall|k: int| 0 <= k < i ==> rank_le(#[trigger] orig[k], orig[i as int]));
                }
                assert(!done);
                assert(p == i);
                assert(post =~= orig);
            }
        }
        i = i + 1;
    }
    proof {
        assert(v@.take(v@.len() as int) =~= v@);
    }
}

} // verus!
