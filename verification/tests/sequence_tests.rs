use autoschematic_verification::sequence::{
    crosscheck_and_capture_records, verify_records, Sequence, SequenceAction,
};
use autoschematic_verification::store::TxStore;
use autoschematic_verification::tx::Transaction;
use autoschematic_verification::HarnessError;

fn tx(kind: &str, params: &[&str]) -> Transaction {
    Transaction::new(
        kind.to_string(),
        params.iter().map(|p| p.to_string()).collect(),
    )
}

fn store_path(name: &str) -> String {
    format!("/tmp/av_{name}.redb")
}

fn write_log(path: &str, txs: &[Transaction]) {
    let mut s = TxStore::create_fresh(path).unwrap();
    for t in txs {
        t.write(&mut s).unwrap();
    }
}

#[test]
fn empty_sequence_runs_and_records_trivially() {
    let seq = Sequence::new_empty();
    assert!(seq.verify().is_ok());

    let mut seq = Sequence::new_empty();
    assert!(seq.crosscheck_and_capture().is_ok());
    assert!(seq.expected_txs().is_empty());
}

#[test]
fn record_then_run_succeeds_on_unchanged_backend_output() {
    let path = store_path("seq_record_run");
    write_log(&path, &[tx("init", &[])]);

    let mut seq = Sequence::new(
        vec![vec!["echo".to_string(), "hello".to_string()]],
        vec![path.clone()],
        Vec::new(),
    );
    assert!(seq.crosscheck_and_capture().is_ok());
    assert_eq!(seq.expected_txs(), &vec![tx("init", &[])]);
    assert!(seq.verify().is_ok());
}

#[test]
fn run_fails_after_backend_output_changes() {
    let path = store_path("seq_changed_backend");
    write_log(&path, &[tx("init", &[])]);

    let mut seq = Sequence::new(Vec::new(), vec![path.clone()], Vec::new());
    assert!(seq.crosscheck_and_capture().is_ok());

    write_log(&path, &[tx("init", &["x"])]);
    assert!(matches!(seq.verify(), Err(HarnessError::Mismatch)));
}

#[test]
fn record_aborts_before_capture_when_backends_disagree() {
    let path_a = store_path("seq_disagree_a");
    let path_b = store_path("seq_disagree_b");
    write_log(&path_a, &[tx("init", &[]), tx("get", &["x"])]);
    write_log(&path_b, &[tx("init", &[]), tx("get", &["y"])]);

    let mut seq = Sequence::new(Vec::new(), vec![path_a, path_b], Vec::new());
    assert!(matches!(
        seq.crosscheck_and_capture(),
        Err(HarnessError::Mismatch)
    ));
    assert!(seq.expected_txs().is_empty());
}

#[test]
fn record_cross_checks_agreeing_backends_and_captures_first_log() {
    let path_a = store_path("seq_agree_a");
    let path_b = store_path("seq_agree_b");
    let shared = [tx("init", &[]), tx("list", &["scoreboard"])];
    write_log(&path_a, &shared);
    write_log(&path_b, &shared);

    let mut seq = Sequence::new(Vec::new(), vec![path_a, path_b], vec![tx("stale", &[])]);
    assert!(seq.crosscheck_and_capture().is_ok());
    assert_eq!(
        seq.expected_txs(),
        &vec![tx("init", &[]), tx("list", &["scoreboard"])]
    );
    assert!(seq.verify().is_ok());
}

#[test]
fn verify_fails_when_a_log_is_missing() {
    let seq = Sequence::new(
        Vec::new(),
        vec!["/tmp/av_seq_no_such_log_absent.redb".to_string()],
        Vec::new(),
    );
    assert!(matches!(seq.verify(), Err(HarnessError::Store(_))));
}

#[test]
fn setup_actions_list_cleanups_then_commands_in_order() {
    let seq = Sequence::new(
        vec![
            vec!["echo".to_string(), "hello".to_string()],
            vec!["true".to_string()],
        ],
        vec!["a.log".to_string(), "b.log".to_string()],
        Vec::new(),
    );
    let actions = seq.setup_actions();
    assert_eq!(actions.len(), 4);
    assert!(matches!(&actions[0], SequenceAction::RemoveLog(p) if p == "a.log"));
    assert!(matches!(&actions[1], SequenceAction::RemoveLog(p) if p == "b.log"));
    assert!(
        matches!(&actions[2], SequenceAction::Execute(c) if c == &vec!["echo".to_string(), "hello".to_string()])
    );
    assert!(matches!(&actions[3], SequenceAction::Execute(c) if c == &vec!["true".to_string()]));
}

#[test]
fn sequence_accessors_hand_back_configured_parts() {
    let seq = Sequence::new(
        vec![vec!["cmd".to_string()]],
        vec!["log".to_string()],
        vec![tx("init", &[])],
    );
    assert_eq!(seq.commands(), &vec![vec!["cmd".to_string()]]);
    assert_eq!(seq.tx_stores(), &vec!["log".to_string()]);
    assert_eq!(seq.expected_txs(), &vec![tx("init", &[])]);
}

#[test]
fn verify_records_succeeds_only_when_every_log_matches() {
    let log_a = vec![tx("init", &[]).to_record(), tx("get", &["x"]).to_record()];
    let log_b = vec![tx("init", &[]).to_record()];
    let names = vec!["a.log".to_string(), "b.log".to_string()];
    let baseline = vec![tx("init", &[]), tx("get", &["x"])];
    assert!(verify_records(&vec![log_a.clone(), log_b.clone()], &names, &baseline, true).is_ok());

    let log_c = vec![tx("init", &["changed"]).to_record()];
    assert!(matches!(
        verify_records(&vec![log_a, log_c], &names, &baseline, true),
        Err(HarnessError::Mismatch)
    ));
}

#[test]
fn verify_records_checks_later_logs_after_a_mismatch() {
    let baseline = vec![tx("init", &[])];
    let mismatching = vec![tx("boot", &[]).to_record()];
    let malformed = vec!["garbage".to_string()];
    let names = vec!["a.log".to_string(), "b.log".to_string()];
    let r = verify_records(&vec![mismatching, malformed], &names, &baseline, true);
    match r {
        Err(HarnessError::Parse(d)) => assert!(d.contains("b.log")),
        other => panic!("expected a parse failure naming the log, got {other:?}"),
    }
}

#[test]
fn crosscheck_records_captures_first_log_when_backends_agree() {
    let log = vec![tx("init", &[]).to_record(), tx("get", &["x"]).to_record()];
    let names = vec!["a.log".to_string(), "b.log".to_string()];
    let got = crosscheck_and_capture_records(&vec![log.clone(), log], &names, true).unwrap();
    assert_eq!(got, vec![tx("init", &[]), tx("get", &["x"])]);

    let empty: Vec<Vec<String>> = Vec::new();
    let no_names: Vec<String> = Vec::new();
    assert!(crosscheck_and_capture_records(&empty, &no_names, true)
        .unwrap()
        .is_empty());
}

#[test]
fn crosscheck_records_checks_later_pairs_after_a_mismatch() {
    let log_a = vec![tx("init", &["1"]).to_record()];
    let log_b = vec![tx("init", &["2"]).to_record()];
    let log_c = vec!["garbage".to_string()];
    let names = vec!["a.log".to_string(), "b.log".to_string(), "c.log".to_string()];
    let r = crosscheck_and_capture_records(&vec![log_a, log_b, log_c], &names, true);
    match r {
        Err(HarnessError::Parse(d)) => {
            assert!(d.contains("b.log"));
            assert!(d.contains("c.log"));
        },
        other => panic!("expected a parse failure naming the pair, got {other:?}"),
    }
}

#[test]
fn crosscheck_records_fails_on_malformed_first_log_after_agreement() {
    let log = vec![tx("init", &[]).to_record(), "garbage".to_string()];
    let names = vec!["a.log".to_string()];
    let r = crosscheck_and_capture_records(&vec![log], &names, true);
    match r {
        Err(HarnessError::Parse(d)) => assert!(d.contains("a.log")),
        other => panic!("expected a parse failure naming the log, got {other:?}"),
    }
}

#[test]
fn verify_names_the_log_a_failure_concerns() {
    let missing = "/tmp/av_ctx_missing.redb";
    let seq = Sequence::new(Vec::new(), vec![missing.to_string()], Vec::new());
    match seq.verify() {
        Err(HarnessError::Store(d)) => assert!(d.contains(missing)),
        other => panic!("expected a storage failure naming the log, got {other:?}"),
    }
}

#[test]
fn verify_names_the_log_with_a_malformed_record() {
    let path = "/tmp/av_ctx_malformed.redb";
    let db = redb::Database::create(path).unwrap();
    let wt = db.begin_write().unwrap();
    wt.delete_table(redb::TableDefinition::<u128, String>::new("transactions"))
        .unwrap();
    {
        let mut table = wt
            .open_table(redb::TableDefinition::<u128, String>::new("transactions"))
            .unwrap();
        table.insert(1u128, &"not a record".to_string()).unwrap();
    }
    wt.commit().unwrap();
    drop(db);

    let seq = Sequence::new(Vec::new(), vec![path.to_string()], vec![tx("init", &[])]);
    match seq.verify() {
        Err(HarnessError::Parse(d)) => assert!(d.contains(path)),
        other => panic!("expected a parse failure naming the log, got {other:?}"),
    }
}
