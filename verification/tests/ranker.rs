use sruc::engine::{Coop, EngineConfig};
use sruc::model::{Contributor, CoopStatus, FarmInfo, Goal, Grade, GradeSpec, ResponseStatus};
use sruc::ranker::{rank_sort, ranks_no_later};

fn player(rate: u64, spent: u32) -> Contributor {
    Contributor {
        user_name: "player".to_string(),
        contribution_rate: rate,
        contribution_amount: 0,
        boost_tokens: 0,
        boost_tokens_spent: spent,
        farm_info: Some(FarmInfo {
            timestamp: 0,
            recently_active: true,
            active: true,
            time_cheat_detected: false,
        }),
    }
}

fn coop_with(coop_id: &str, contributors: Vec<Contributor>) -> Coop {
    Coop {
        coop_status: CoopStatus {
            contract_identifier: "ctr".to_string(),
            coop_identifier: coop_id.to_string(),
            grade: Grade::AAA,
            seconds_remaining: 1000,
            seconds_since_all_goals_achieved: 0,
            total_amount: 0,
            contributors,
            response_status: ResponseStatus::NoError,
            all_goals_achieved: false,
            cleared_for_exit: false,
        },
        grade_spec: GradeSpec { grade: Grade::AAA, goals: vec![Goal { target_amount: 10_000 }] },
        contract_farm_max_secs_allowed: 2000,
        config: EngineConfig { boost_threshold: 4 },
    }
}

fn ids(v: &Vec<Coop>) -> Vec<String> {
    v.iter().map(|c| c.coop_id().clone()).collect()
}

#[test]
fn equal_duration_more_boosted_ranks_first() {
    // Same shipping rate and goal, so identical predicted durations; the
    // coop with five boosted players must come first.
    let five = coop_with(
        "five_b",
        vec![player(2, 4), player(2, 4), player(2, 4), player(2, 4), player(2, 4)],
    );
    let three = coop_with(
        "threeb",
        vec![player(4, 4), player(3, 4), player(3, 4)],
    );
    let mut v = vec![three, five];
    rank_sort(&mut v);
    assert_eq!(ids(&v), vec!["five_b".to_string(), "threeb".to_string()]);
}

#[test]
fn shorter_duration_ranks_first() {
    let fast = coop_with("faster", vec![player(100, 0)]);
    let slow = coop_with("slower", vec![player(10, 0)]);
    let mut v = vec![slow, fast];
    rank_sort(&mut v);
    assert_eq!(ids(&v), vec!["faster".to_string(), "slower".to_string()]);
}

#[test]
fn unknown_duration_sorts_last() {
    let silent = coop_with("silent", vec![]);
    let active = coop_with("active", vec![player(1, 0)]);
    let mut v = vec![silent, active];
    rank_sort(&mut v);
    assert_eq!(ids(&v), vec!["active".to_string(), "silent".to_string()]);
}

#[test]
fn more_tokens_breaks_boosted_tie() {
    let rich = coop_with("richer", vec![player(5, 9)]);
    let poor = coop_with("poorer", vec![player(5, 6)]);
    let mut v = vec![poor, rich];
    rank_sort(&mut v);
    assert_eq!(ids(&v), vec!["richer".to_string(), "poorer".to_string()]);
}

#[test]
fn sorting_twice_yields_identical_sequence() {
    let a = coop_with("coop_a", vec![player(10, 4)]);
    let b = coop_with("coop_b", vec![player(100, 0)]);
    let c = coop_with("coop_c", vec![]);
    let mut v = vec![a, b, c];
    rank_sort(&mut v);
    let once = ids(&v);
    rank_sort(&mut v);
    assert_eq!(once, ids(&v));
}

#[test]
fn coop_identity_is_the_id_pair() {
    // Equality is by contract id and coop id alone, however the derived
    // values differ.
    let a = coop_with("same", vec![player(5, 4)]);
    let b = coop_with("same", vec![player(50, 0), player(1, 0)]);
    let c = coop_with("other", vec![player(5, 4)]);
    assert!(a == b);
    assert!(a != c);
}

#[test]
fn fully_tied_coops_keep_their_input_order() {
    // Identical on all four keys, distinguishable only by id.
    let x = coop_with("tied_x", vec![player(5, 4)]);
    let y = coop_with("tied_y", vec![player(5, 4)]);
    assert!(ranks_no_later(&x, &y));
    assert!(ranks_no_later(&y, &x));
    let mut v = vec![x, y];
    rank_sort(&mut v);
    assert_eq!(ids(&v), vec!["tied_x".to_string(), "tied_y".to_string()]);
    let x2 = coop_with("tied_x", vec![player(5, 4)]);
    let y2 = coop_with("tied_y", vec![player(5, 4)]);
    let mut w = vec![y2, x2];
    rank_sort(&mut w);
    assert_eq!(ids(&w), vec!["tied_y".to_string(), "tied_x".to_string()]);
}
