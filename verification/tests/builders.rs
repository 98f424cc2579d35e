use sruc::contracts::{ActiveContract, ActiveContractBuilder, CoopBuilder};
use sruc::coop_flag::CoopFlag;
use sruc::engine::{Coop, EngineConfig};
use sruc::error::{
    EmptyContractsResponse, EmptyMajResponse, InvalidContractId, InvalidCoopCode, MissingField,
};
use sruc::maj_api::{active_coop_codes, find_backup_proto, first_maj_response, BackupContract,
    MajCoops, MajCoopsResponse};
use sruc::model::{find_contract_by_id, Contract, CoopStatus, Goal, Grade, GradeSpec,
    ResponseStatus};

fn small_contract(id: &str) -> Contract {
    Contract {
        identifier: id.to_string(),
        length_seconds: 1000,
        grade_specs: vec![GradeSpec { grade: Grade::AAA, goals: vec![Goal { target_amount: 10 }] }],
    }
}

fn small_status(coop_id: &str) -> CoopStatus {
    CoopStatus {
        contract_identifier: "ctr".to_string(),
        coop_identifier: coop_id.to_string(),
        grade: Grade::AAA,
        seconds_remaining: 0,
        seconds_since_all_goals_achieved: 0,
        total_amount: 0,
        contributors: vec![],
        response_status: ResponseStatus::NoError,
        all_goals_achieved: false,
        cleared_for_exit: true,
    }
}

#[test]
fn coop_builder_demands_contract_then_code() {
    assert_eq!(CoopBuilder::new().build().unwrap_err(), MissingField::Contract);
    assert_eq!(
        CoopBuilder::new().with_contract(small_contract("c")).build().unwrap_err(),
        MissingField::CoopCode
    );
    let req = CoopBuilder::new()
        .with_contract(small_contract("c"))
        .with_coop_code("code".to_string())
        .build()
        .expect("both parts were supplied");
    assert_eq!(req.contract.identifier, "c");
    assert_eq!(req.coop_code, "code");
}

#[test]
fn active_contract_builder_demands_id_then_flag() {
    assert_eq!(ActiveContractBuilder::new().build().unwrap_err(), MissingField::ContractId);
    assert_eq!(
        ActiveContractBuilder::new().with_contract_id("c".to_string()).build().unwrap_err(),
        MissingField::CoopFlag
    );
    let req = ActiveContractBuilder::new()
        .with_contract_id("c".to_string())
        .with_coop_flag(CoopFlag::Speedrun)
        .build()
        .expect("both parts were supplied");
    assert_eq!(req.contract_id, "c");
    assert_eq!(req.coop_flag, CoopFlag::Speedrun);
}

#[test]
fn active_contract_collects_and_reports_green_scroll() {
    let mut ac = ActiveContract::new(small_contract("ctr"), CoopFlag::Speedrun);
    assert_eq!(ac.contract_name().as_str(), "ctr");
    assert!(ac.all_coops_green_scrolled());
    let cfg = EngineConfig { boost_threshold: 4 };
    let done = Coop::new(small_status("done"), &small_contract("ctr"), cfg).unwrap();
    ac.add_coop(done);
    assert!(ac.all_coops_green_scrolled());
    let mut open_status = small_status("open");
    open_status.cleared_for_exit = false;
    let open = Coop::new(open_status, &small_contract("ctr"), cfg).unwrap();
    ac.add_coop(open);
    assert!(!ac.all_coops_green_scrolled());
    ac.sort_coops();
    assert_eq!(ac.coops().len(), 2);
}

#[test]
fn coop_flag_priority() {
    assert_eq!(CoopFlag::from_flags(true, true, true, true), CoopFlag::Speedrun);
    assert_eq!(CoopFlag::from_flags(true, true, true, false), CoopFlag::Fastrun);
    assert_eq!(CoopFlag::from_flags(true, true, false, false), CoopFlag::Carry);
    assert_eq!(CoopFlag::from_flags(true, false, false, false), CoopFlag::AnyGrade);
    assert_eq!(CoopFlag::from_flags(false, false, false, false), CoopFlag::NoFlags);
    assert_eq!(CoopFlag::default(), CoopFlag::NoFlags);
}

#[test]
fn maj_codes_filter_by_flag() {
    let response = MajCoopsResponse {
        start_time: "0".to_string(),
        active_coops: true,
        coops: vec![
            MajCoops { coop_flags: CoopFlag::Speedrun, code: "a".to_string() },
            MajCoops { coop_flags: CoopFlag::Carry, code: "b".to_string() },
            MajCoops { coop_flags: CoopFlag::Speedrun, code: "c".to_string() },
        ],
    };
    assert_eq!(active_coop_codes(&response, CoopFlag::Speedrun), vec!["a", "c"]);
    assert_eq!(active_coop_codes(&response, CoopFlag::Carry), vec!["b"]);
    assert!(active_coop_codes(&response, CoopFlag::Fastrun).is_empty());
    let inactive = MajCoopsResponse { active_coops: false, ..response };
    assert!(active_coop_codes(&inactive, CoopFlag::Speedrun).is_empty());
}

#[test]
fn first_maj_response_rejects_empty_list() {
    let empty: Vec<MajCoopsResponse> = vec![];
    assert!(first_maj_response(&empty).is_err());
    let one = vec![MajCoopsResponse {
        start_time: "t".to_string(),
        active_coops: true,
        coops: vec![],
    }];
    assert_eq!(first_maj_response(&one).unwrap().start_time, "t");
}

#[test]
fn backup_lookup_takes_last_match() {
    let entries = vec![
        BackupContract { id: "x".to_string(), proto: "old".to_string() },
        BackupContract { id: "y".to_string(), proto: "other".to_string() },
        BackupContract { id: "x".to_string(), proto: "new".to_string() },
    ];
    let idx = find_backup_proto(&entries, &"x".to_string()).expect("x exists");
    assert_eq!(entries[idx].proto, "new");
    assert!(find_backup_proto(&entries, &"z".to_string()).is_none());
}

#[test]
fn contract_lookup_takes_first_match() {
    let contracts = vec![small_contract("a"), small_contract("b")];
    assert_eq!(find_contract_by_id(&contracts, &"b".to_string()), Some(1));
    assert_eq!(find_contract_by_id(&contracts, &"z".to_string()), None);
}

#[test]
fn error_messages() {
    assert_eq!(InvalidCoopCode.message(), "Invalid coop code used");
    assert_eq!(InvalidContractId.message(), "Invalid contract ID used");
    assert_eq!(EmptyMajResponse.message(), "Empty Maj Wonky API response");
    assert_eq!(EmptyContractsResponse.message(), "Empty ContractsResponse");
}

#[test]
fn grade_labels() {
    assert_eq!(Grade::Unset.label(), "Unset");
    assert_eq!(Grade::AAA.label(), "AAA");
    assert_eq!(Grade::C.label(), "C");
}
