use sruc::engine::{accept_coop_status, compute_snapshot, Coop, EngineConfig};
use sruc::error::{ComputationError, CoopError};
use sruc::model::{
    Contract, Contributor, CoopStatus, FarmInfo, Goal, Grade, GradeSpec, ResponseStatus,
};

fn contributor(rate: u64, timestamp: Option<i64>, spent: u32, held: u32) -> Contributor {
    Contributor {
        user_name: "player".to_string(),
        contribution_rate: rate,
        contribution_amount: 0,
        boost_tokens: held,
        boost_tokens_spent: spent,
        farm_info: timestamp.map(|t| FarmInfo {
            timestamp: t,
            recently_active: true,
            active: true,
            time_cheat_detected: false,
        }),
    }
}

fn status(contributors: Vec<Contributor>) -> CoopStatus {
    CoopStatus {
        contract_identifier: "ctr".to_string(),
        coop_identifier: "coop42".to_string(),
        grade: Grade::AAA,
        seconds_remaining: 200_000,
        seconds_since_all_goals_achieved: 0,
        total_amount: 400_000_000_000,
        contributors,
        response_status: ResponseStatus::NoError,
        all_goals_achieved: false,
        cleared_for_exit: false,
    }
}

fn contract(goal: u64) -> Contract {
    Contract {
        identifier: "ctr".to_string(),
        length_seconds: 604_800,
        grade_specs: vec![
            GradeSpec { grade: Grade::AA, goals: vec![Goal { target_amount: 1 }] },
            GradeSpec {
                grade: Grade::AAA,
                goals: vec![Goal { target_amount: goal / 2 }, Goal { target_amount: goal }],
            },
        ],
    }
}

const CFG: EngineConfig = EngineConfig { boost_threshold: 4 };

#[test]
fn scenario_offline_and_remaining_eggs() {
    // Two contributors, rates 1e6 and 2e6 eggs/s, last synced 3600 s and
    // 7200 s ago: 1.8e10 offline eggs, 5.82e11 still owed.
    let s = status(vec![
        contributor(1_000_000, Some(-3600), 0, 0),
        contributor(2_000_000, Some(-7200), 0, 0),
    ]);
    assert!(s.is_well_formed());
    let coop = Coop::new(s, &contract(1_000_000_000_000), CFG).expect("grade must match");
    let snap = coop.snapshot(0);
    assert_eq!(snap.egg_goal, 1_000_000_000_000);
    assert_eq!(snap.shipped_eggs, 400_000_000_000);
    assert_eq!(snap.offline_eggs, 18_000_000_000u128);
    assert_eq!(snap.remaining_eggs, 582_000_000_000);
    assert_eq!(snap.shipping_rate, 3_000_000u128);
    assert_eq!(snap.predicted_seconds_remaining, Some(194_000));
    // 604800 - 200000 + 194000 - 0
    assert_eq!(snap.total_predicted_duration, Some(598_800));
}

#[test]
fn contributor_without_farm_info_adds_no_offline_eggs() {
    let with_ghost = status(vec![
        contributor(1_000_000, Some(-3600), 0, 0),
        contributor(999_999_999, None, 0, 0),
    ]);
    let without = status(vec![contributor(1_000_000, Some(-3600), 0, 0)]);
    assert_eq!(with_ghost.total_offline_eggs(), without.total_offline_eggs());
    assert_eq!(with_ghost.total_offline_eggs(), 3_600_000_000u128);
}

#[test]
fn remaining_eggs_never_negative() {
    // Offline production alone dwarfs the goal.
    let s = status(vec![contributor(1_000_000_000, Some(-1_000_000), 0, 0)]);
    let coop = Coop::new(s, &contract(1_000), CFG).expect("grade must match");
    assert_eq!(coop.eggs_remaining(), 0);
}

#[test]
fn zero_shipping_rate_yields_unknown_sentinel() {
    let s = status(vec![]);
    let coop = Coop::new(s, &contract(1_000_000), CFG).expect("grade must match");
    assert_eq!(coop.predicted_seconds_remaining(), None);
    let snap = coop.snapshot(0);
    assert_eq!(snap.predicted_seconds_remaining, None);
    assert_eq!(snap.total_predicted_duration, None);
    assert_eq!(snap.finishing_time, None);
    assert_eq!(
        snap.definite_predicted_seconds(),
        Err(ComputationError::ZeroShippingRate)
    );
}

#[test]
fn missing_grade_spec_is_a_typed_error() {
    let mut s = status(vec![contributor(1, Some(0), 0, 0)]);
    s.grade = Grade::C;
    match Coop::new(s, &contract(1_000), CFG) {
        Err(ComputationError::NoMatchingGrade) => {}
        other => panic!("expected NoMatchingGrade, got {:?}", other.map(|_| ())),
    }
}

#[test]
fn compute_snapshot_uses_first_matching_grade_spec() {
    let s = status(vec![contributor(1_000, Some(0), 0, 0)]);
    let snap = compute_snapshot(&contract(500_000_000_000), s, CFG, 7).expect("grade matches");
    assert_eq!(snap.egg_goal, 500_000_000_000);
    assert_eq!(snap.remaining_eggs, 100_000_000_000);
    assert_eq!(snap.predicted_seconds_remaining, Some(100_000_000));
    assert_eq!(snap.finishing_time, Some(100_000_007));
}

#[test]
fn rejected_coop_code_is_a_domain_rejection() {
    let mut bad = status(vec![]);
    bad.response_status = ResponseStatus::InvalidCoopCode;
    match accept_coop_status(bad, &contract(1_000), CFG) {
        Err(CoopError::DomainRejection) => {}
        other => panic!("expected DomainRejection, got {:?}", other.map(|_| ())),
    }
    let good = status(vec![]);
    assert!(accept_coop_status(good, &contract(1_000), CFG).is_ok());
    let mut ungraded = status(vec![]);
    ungraded.grade = Grade::B;
    match accept_coop_status(ungraded, &contract(1_000), CFG) {
        Err(CoopError::NoMatchingGrade) => {}
        other => panic!("expected NoMatchingGrade, got {:?}", other.map(|_| ())),
    }
}

#[test]
fn boosted_count_and_tokens_follow_threshold() {
    let s = status(vec![
        contributor(1, Some(0), 4, 1),
        contributor(1, Some(0), 3, 2),
        contributor(1, Some(0), 6, 0),
    ]);
    let coop = Coop::new(s, &contract(1_000), CFG).expect("grade must match");
    assert_eq!(coop.boosted_count(), 2);
    assert_eq!(coop.total_tokens(), 16);
    let six = EngineConfig { boost_threshold: 6 };
    let s2 = status(vec![
        contributor(1, Some(0), 4, 1),
        contributor(1, Some(0), 6, 0),
    ]);
    let coop6 = Coop::new(s2, &contract(1_000), six).expect("grade must match");
    assert_eq!(coop6.boosted_count(), 1);
}

#[test]
fn well_formedness_check_rejects_positive_timestamp() {
    let good = status(vec![contributor(5, Some(-10), 0, 0)]);
    assert!(good.is_well_formed());
    let bad = status(vec![contributor(5, Some(10), 0, 0)]);
    assert!(!bad.is_well_formed());
}

#[test]
fn stripped_coop_id_truncates_or_pads() {
    let s = status(vec![]);
    let coop = Coop::new(s, &contract(1_000), CFG).expect("grade must match");
    assert_eq!(coop.stripped_coop_id(), "coop42");
    let mut short = status(vec![]);
    short.coop_identifier = "abc".to_string();
    let coop_short = Coop::new(short, &contract(1_000), CFG).expect("grade must match");
    assert_eq!(coop_short.stripped_coop_id(), "abc   ");
    let mut long = status(vec![]);
    long.coop_identifier = "abcdefgh".to_string();
    let coop_long = Coop::new(long, &contract(1_000), CFG).expect("grade must match");
    assert_eq!(coop_long.stripped_coop_id(), "abcdef");
}
