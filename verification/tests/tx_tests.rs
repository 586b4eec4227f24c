use autoschematic_verification::tx::Transaction;
use autoschematic_verification::HarnessError;

fn tx(kind: &str, params: &[&str]) -> Transaction {
    Transaction::new(
        kind.to_string(),
        params.iter().map(|p| p.to_string()).collect(),
    )
}

#[test]
fn round_trip_plain() {
    let t = tx("init", &[]);
    let r = t.reencoded();
    assert_eq!(r, t);
}

#[test]
fn round_trip_with_params() {
    let t = tx("op_exec", &["scoreboard/resource.ron", "SetState((random_int:42))"]);
    let r = t.reencoded();
    assert_eq!(r, t);
    assert_eq!(r.kind, "op_exec");
    assert_eq!(r.params.len(), 2);
}

#[test]
fn round_trip_awkward_strings() {
    let t = tx("plan", &["quote \" backslash \\", "newline \n tab \t", "unicode \u{3b1}\u{3b2}", ""]);
    let r = t.reencoded();
    assert_eq!(r, t);
}

#[test]
fn record_form_is_json_object() {
    let t = tx("filter", &["a", "b"]);
    let s = t.to_record();
    let v: serde_json::Value = serde_json::from_str(&s).unwrap();
    assert_eq!(v["kind"], serde_json::Value::String("filter".to_string()));
    let params: Vec<String> = v["params"]
        .as_array()
        .unwrap()
        .iter()
        .map(|p| p.as_str().unwrap().to_string())
        .collect();
    assert_eq!(params, vec!["a".to_string(), "b".to_string()]);
}

#[test]
fn from_record_parses_stored_text() {
    let got = Transaction::from_record("{\"kind\":\"init\",\"params\":[\"x\"]}").unwrap();
    assert_eq!(got, tx("init", &["x"]));
}

#[test]
fn from_record_rejects_malformed_text() {
    assert!(matches!(
        Transaction::from_record("not a record"),
        Err(HarnessError::Parse(_))
    ));
    assert!(matches!(
        Transaction::from_record("{\"kind\":3,\"params\":[]}"),
        Err(HarnessError::Parse(_))
    ));
    assert!(matches!(
        Transaction::from_record("{\"kind\":\"a\",\"params\":[1]}"),
        Err(HarnessError::Parse(_))
    ));
    assert!(matches!(
        Transaction::from_record("{\"kind\":\"a\"}"),
        Err(HarnessError::Parse(_))
    ));
}

#[test]
fn equality_is_structural_and_order_sensitive() {
    assert_eq!(tx("a", &["1", "2"]), tx("a", &["1", "2"]));
    assert_ne!(tx("a", &["1", "2"]), tx("a", &["2", "1"]));
    assert_ne!(tx("a", &["1"]), tx("b", &["1"]));
    assert_ne!(tx("a", &["1"]), tx("a", &["1", "1"]));
}

#[test]
fn field_diff_names_differing_fields() {
    let d = tx("a", &["1"]).field_diff(&tx("b", &["1"]));
    assert!(d.kind_differs);
    assert!(!d.params_differ);

    let d = tx("a", &["1"]).field_diff(&tx("a", &["2"]));
    assert!(!d.kind_differs);
    assert!(d.params_differ);

    let d = tx("a", &["1"]).field_diff(&tx("a", &["1"]));
    assert!(!d.kind_differs);
    assert!(!d.params_differ);
}

#[test]
fn mismatch_message_text() {
    assert_eq!(HarnessError::Mismatch.message(), "Mismatch detected!");
}
