use autoschematic_verification::cmd::{
    AutoschematicTestBenchCommand, AutoschematicTestBenchSubcommand,
};
use autoschematic_verification::scoreboard::{
    count_down_step, filter_decision, list_paths, op_exec_outcome, plan_ops, unbundle_elements,
    FilterKind, ScoreboardAddress, ScoreboardConnectorOp, ScoreboardState, ScoreboardTaskType,
};
use autoschematic_verification::store::TxStore;
use autoschematic_verification::tx::Transaction;

#[test]
fn address_paths_round_trip() {
    let addrs = [
        ScoreboardAddress::Resource,
        ScoreboardAddress::Bundle,
        ScoreboardAddress::Task(ScoreboardTaskType::CountDown),
    ];
    for a in addrs {
        let p = a.to_path_string();
        let back = ScoreboardAddress::from_path_string(&p).unwrap();
        assert_eq!(back.to_path_string(), p);
    }
    assert_eq!(
        ScoreboardAddress::Resource.to_path_string(),
        "scoreboard/resource.ron"
    );
    assert_eq!(
        ScoreboardAddress::Bundle.to_path_string(),
        "scoreboard/bundle.ron"
    );
    assert_eq!(
        ScoreboardAddress::Task(ScoreboardTaskType::CountDown).to_path_string(),
        "scoreboard/task/count_down.ron"
    );
    assert!(ScoreboardAddress::from_path_string("somewhere/else.ron").is_none());
}

#[test]
fn filter_classifies_known_paths() {
    assert_eq!(filter_decision("scoreboard/resource.ron"), FilterKind::Resource);
    assert_eq!(filter_decision("scoreboard/bundle.ron"), FilterKind::Bundle);
    assert_eq!(filter_decision("scoreboard/task/count_down.ron"), FilterKind::Task);
    assert_eq!(filter_decision("scoreboard/unknown.ron"), FilterKind::NoMatch);
}

#[test]
fn list_exposes_the_resource() {
    assert_eq!(list_paths(), vec!["scoreboard/resource.ron".to_string()]);
}

#[test]
fn plan_sets_desired_state_only_with_both_sides() {
    let cur = ScoreboardState { random_int: 1 };
    let des = ScoreboardState { random_int: 42 };
    let ops = plan_ops(Some(cur), Some(des));
    assert_eq!(ops.len(), 1);
    assert!(matches!(&ops[0], ScoreboardConnectorOp::SetState(s) if s.random_int == 42));
    assert!(plan_ops(None, Some(des)).is_empty());
    assert!(plan_ops(Some(cur), None).is_empty());
    assert!(plan_ops(None, None).is_empty());
}

#[test]
fn op_exec_reports_what_it_did() {
    let out = op_exec_outcome(&ScoreboardConnectorOp::SetState(ScoreboardState {
        random_int: 7,
    }));
    assert!(out.outputs.is_none());
    assert_eq!(
        out.friendly_message.as_deref(),
        Some("Set the state to the desired setting.")
    );
}

#[test]
fn unbundle_unpacks_only_the_bundle() {
    let els = unbundle_elements(&ScoreboardAddress::Bundle);
    assert_eq!(els.len(), 2);
    assert_eq!(els[0].addr, "scoreboard/bundle.1.out");
    assert_eq!(els[0].contents, "testbench generic output");
    assert_eq!(els[1].addr, "scoreboard/bundle.2.out");
    assert_eq!(els[1].contents, "testbench generic output");
    assert!(unbundle_elements(&ScoreboardAddress::Resource).is_empty());
    assert!(
        unbundle_elements(&ScoreboardAddress::Task(ScoreboardTaskType::CountDown)).is_empty()
    );
}

#[test]
fn count_down_steps_to_zero_then_finishes() {
    assert_eq!(count_down_step(Some(3), None), Some(3));
    assert_eq!(count_down_step(None, Some(3)), Some(2));
    assert_eq!(count_down_step(None, Some(1)), Some(0));
    assert_eq!(count_down_step(None, Some(0)), None);
    assert_eq!(count_down_step(None, None), None);
    assert_eq!(count_down_step(Some(5), Some(2)), Some(1));
}

#[test]
fn command_names_its_descriptor_path() {
    let c = AutoschematicTestBenchCommand {
        command: AutoschematicTestBenchSubcommand::Run { sequence: "cases/seq.ron".to_string() },
    };
    assert_eq!(c.sequence_path(), "cases/seq.ron");
    let c = AutoschematicTestBenchCommand {
        command: AutoschematicTestBenchSubcommand::Init { sequence: "a".to_string() },
    };
    assert_eq!(c.sequence_path(), "a");
    let c = AutoschematicTestBenchCommand {
        command: AutoschematicTestBenchSubcommand::Record { sequence: "b".to_string() },
    };
    assert_eq!(c.sequence_path(), "b");
}

#[test]
fn backend_stub_records_protocol_events_in_order() {
    let mut store = TxStore::create_fresh("/tmp/av_scoreboard_stub.redb").unwrap();
    Transaction::new("init".to_string(), Vec::new())
        .write(&mut store)
        .unwrap();
    Transaction::new(
        "filter".to_string(),
        vec![ScoreboardAddress::Resource.to_path_string()],
    )
    .write(&mut store)
    .unwrap();
    let db = store.into_db();
    let got = autoschematic_verification::store::read_transactions(&db).unwrap();
    assert_eq!(
        got,
        vec![
            Transaction::new("init".to_string(), Vec::new()),
            Transaction::new(
                "filter".to_string(),
                vec!["scoreboard/resource.ron".to_string()],
            ),
        ]
    );
}
