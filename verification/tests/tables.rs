use sruc::engine::{Coop, EngineConfig};
use sruc::error::ComputationError;
use sruc::maj_coop::MajCoop;
use sruc::model::{Contributor, CoopStatus, FarmInfo, Goal, Grade, GradeSpec, Contract,
    ResponseStatus};
use sruc::report_generator::sruc::{rows_fit_check, sruc_coop_row, SrucTable};

fn one_player(rate: u64, spent: u32) -> Contributor {
    Contributor {
        user_name: "player".to_string(),
        contribution_rate: rate,
        contribution_amount: 0,
        boost_tokens: spent,
        boost_tokens_spent: spent,
        farm_info: Some(FarmInfo {
            timestamp: 0,
            recently_active: true,
            active: true,
            time_cheat_detected: false,
        }),
    }
}

fn table_status(contributors: Vec<Contributor>) -> CoopStatus {
    CoopStatus {
        contract_identifier: "ctr".to_string(),
        coop_identifier: "coop42".to_string(),
        grade: Grade::AAA,
        seconds_remaining: 0,
        seconds_since_all_goals_achieved: 0,
        total_amount: 0,
        contributors,
        response_status: ResponseStatus::NoError,
        all_goals_achieved: false,
        cleared_for_exit: false,
    }
}

fn table_contract() -> Contract {
    Contract {
        identifier: "ctr".to_string(),
        length_seconds: 600,
        grade_specs: vec![GradeSpec {
            grade: Grade::AAA,
            goals: vec![Goal { target_amount: 1000 }],
        }],
    }
}

#[test]
fn maj_coop_builds_the_full_row() {
    let coop = MajCoop::new(
        table_contract(),
        table_status(vec![one_player(10, 6)]),
        EngineConfig { boost_threshold: 6 },
    );
    // remaining 1000, rate 10: 100 s predicted; duration 600 - 0 + 100 = 700 s.
    assert_eq!(coop.get_contract_egg_goal(), Ok(1000));
    assert_eq!(coop.total_duration().unwrap(), "0d0h11m");
    assert_eq!(coop.finishing_time(0).unwrap().time, 100);
    let row = coop.build_table_row(0).unwrap();
    assert_eq!(
        row,
        "[\u{29c9}](<https://eicoop-carpet.netlify.app/ctr/coop42>)`coop42 |   1   |  12  |   0d0h11m   | `<t:100:f>` `"
    );
}

#[test]
fn maj_coop_zero_rate_is_a_typed_error() {
    let coop = MajCoop::new(
        table_contract(),
        table_status(vec![]),
        EngineConfig { boost_threshold: 6 },
    );
    assert_eq!(coop.total_duration().unwrap_err(), ComputationError::ZeroShippingRate);
    assert_eq!(
        coop.build_table_row(0).unwrap_err(),
        ComputationError::ZeroShippingRate
    );
}

#[test]
fn maj_coop_missing_grade_is_a_typed_error() {
    let mut status = table_status(vec![one_player(10, 6)]);
    status.grade = Grade::C;
    let coop = MajCoop::new(table_contract(), status, EngineConfig { boost_threshold: 6 });
    assert_eq!(coop.get_contract_egg_goal(), Err(ComputationError::NoMatchingGrade));
    assert_eq!(coop.total_duration().unwrap_err(), ComputationError::NoMatchingGrade);
}

#[test]
fn sruc_table_header_layout() {
    let table = SrucTable::new();
    assert_eq!(
        table.table.get_table_header(),
        "`  Coop  | Boosted | Tokens | Duration |       Finish       `\n"
    );
}

#[test]
fn sruc_rows_render_ranked_coops() {
    let cfg = EngineConfig { boost_threshold: 4 };
    let active = Coop::new(table_status(vec![one_player(10, 6)]), &table_contract(), cfg)
        .expect("grade matches");
    let row = sruc_coop_row(&active, 0);
    assert_eq!(row.len(), 5);
    assert_eq!(
        row[0],
        "[\u{29c9}](<https://eicoop-carpet.netlify.app/ctr/coop42>) `coop42"
    );
    assert_eq!(row[1], "1");
    assert_eq!(row[2], "12");
    assert_eq!(row[3], "11m");
    assert_eq!(row[4], "`<t:100:f>");

    let silent = Coop::new(table_status(vec![]), &table_contract(), cfg).expect("grade matches");
    let silent_row = sruc_coop_row(&silent, 0);
    assert_eq!(silent_row[3], "Unknown");
    assert_eq!(silent_row[4], "Unknown");

    let mut table = SrucTable::new();
    table.add_coops(&vec![active, silent], 0);
    let body = table.table.get_table_body();
    assert!(body.contains("Unknown"));
    assert_eq!(body.lines().count(), 2);
}

#[test]
fn rows_fit_check_accepts_sane_predictions() {
    let cfg = EngineConfig { boost_threshold: 4 };
    let active = Coop::new(table_status(vec![one_player(10, 6)]), &table_contract(), cfg)
        .expect("grade matches");
    let silent = Coop::new(table_status(vec![]), &table_contract(), cfg).expect("grade matches");
    assert!(rows_fit_check(&vec![active, silent], 0));
}

#[test]
fn rows_fit_check_rejects_oversized_predictions() {
    let cfg = EngineConfig { boost_threshold: 4 };

    // A contract length near u64::MAX pushes the predicted duration past
    // what a signed 64-bit count of seconds can hold.
    let mut long_contract = table_contract();
    long_contract.length_seconds = u64::MAX;
    let too_long = Coop::new(table_status(vec![one_player(10, 6)]), &long_contract, cfg)
        .expect("grade matches");
    assert!(!rows_fit_check(&vec![too_long], 0));

    // A clock reading at the end of the i64 range overflows the finishing
    // instant even for a modest prediction.
    let fine = Coop::new(table_status(vec![one_player(10, 6)]), &table_contract(), cfg)
        .expect("grade matches");
    assert!(!rows_fit_check(&vec![fine], i64::MAX));
}
