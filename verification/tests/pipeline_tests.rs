use splint::LintError;
use splint::catalog::catalog;
use splint::checker::{Document, RawViolation, check_shape, diagnose, exit_status, locate, pointer_of_path};
use splint::resolve::resolve;

fn raw(msg: &str, instance_path: &[&str]) -> RawViolation {
    RawViolation {
        msg: msg.to_string(),
        instance_path: instance_path.iter().map(|p| p.to_string()).collect(),
        schema_path: vec!["type".to_string()],
    }
}

#[test]
fn pointer_renders_leaf_first_paths() {
    let empty: Vec<String> = Vec::new();
    assert_eq!(pointer_of_path(&empty), "/");
    let path: Vec<String> = vec!["b".to_string(), "a".to_string()];
    assert_eq!(pointer_of_path(&path), "/a/b");
}

#[test]
fn locate_finds_a_pointer_position() {
    let content = "foo:\n    - bar: baz\n      boom: true\n";
    let pos = locate(content, "/foo/0/boom").expect("position expected");
    assert_eq!(pos.line, 3);
    assert_eq!(pos.col, 7); // 1-based column
    assert!(locate(content, "/foo/0/zoom").is_none());
}

#[test]
fn violation_count_monotonicity() {
    // a checker outcome of 3 independent violations yields exactly 3
    // diagnostics, none dropped
    let content = "a: 1\nb: 2\nc: 3\n";
    let violations = vec![
        raw("is not of type integer", &["a"]),
        raw("is too short", &["b"]),
        raw("is a surprise", &["c"]),
    ];
    let diags = diagnose(content, &None, &violations).expect("all messages follow the convention");
    assert_eq!(diags.len(), 3);
    assert_eq!(diags[0].field, "/a");
    assert_eq!(diags[0].reason, "is not of type integer");
    assert_eq!(diags[0].message, "/a: is not of type integer");
    let p = diags[0].position.as_ref().expect("a recorded position");
    assert_eq!(p.line, 1);
    assert_eq!(diags[1].message, "/b: is too short");
    assert_eq!(diags[2].message, "/c: is a surprise");
}

#[test]
fn out_of_contract_message_aborts_loudly() {
    // a path component that smuggles the delimiters in makes the assembled
    // message ambiguous; the run must abort, not guess
    let content = "a: 1\n";
    let violations = vec![raw("boom", &["a with schema at : b"])];
    match diagnose(content, &None, &violations) {
        Err(LintError::BadMessage { message }) => {
            assert!(message.starts_with("At "));
            let described = LintError::BadMessage { message }.describe();
            assert!(described.starts_with("checker message out of contract: "));
        }
        Ok(_) => panic!("an out-of-contract message must not be diagnosed"),
        Err(other) => panic!("unexpected error kind: {:?}", other),
    }
}

#[test]
fn end_to_end_scenario() {
    // .angular-cli.json resolves via the catalog to the entry of that name,
    // and only that entry
    let entries = catalog();
    let refs = resolve(&entries, ".angular-cli.json", &None).unwrap();
    assert_eq!(refs.len(), 1);
    assert_eq!(refs[0].label.as_deref(), Some(".angular-cli.json"));
    assert!(refs[0].remote);

    // a satisfied shape yields no violations and a zero exit status
    let shape: serde_json::Value = serde_json::from_str(
        "{\"type\": \"object\", \"required\": [\"project\"], \"properties\": {\"project\": {\"type\": \"object\"}}}",
    )
    .unwrap();
    let good_text = "{\"project\": {}}";
    let good = Document {
        path: ".angular-cli.json".to_string(),
        text: good_text.to_string(),
        value: serde_json::from_str(good_text).unwrap(),
    };
    let violations = check_shape(&shape, &good).unwrap();
    assert_eq!(violations.len(), 0);
    let diags = diagnose(&good.text, &refs[0].label, &violations).unwrap();
    assert_eq!(diags.len(), 0);
    assert_eq!(exit_status(diags.len(), false), 0);

    // one violated required field yields exactly one diagnostic and a
    // non-zero exit status
    let bad_text = "{\"other\": 1}";
    let bad = Document {
        path: ".angular-cli.json".to_string(),
        text: bad_text.to_string(),
        value: serde_json::from_str(bad_text).unwrap(),
    };
    let violations = check_shape(&shape, &bad).unwrap();
    assert_eq!(violations.len(), 1);
    let diags = diagnose(&bad.text, &refs[0].label, &violations).unwrap();
    assert_eq!(diags.len(), 1);
    assert!(diags[0].reason.contains("project"));
    assert_eq!(diags[0].label.as_deref(), Some(".angular-cli.json"));
    assert_eq!(exit_status(diags.len(), false), 1);
}

#[test]
fn rejected_shape_is_a_fatal_error() {
    // a shape the capability itself rejects aborts with its reason
    let shape: serde_json::Value =
        serde_json::from_str("{\"$id\": \"http://[invalid/\"}").unwrap();
    let text = "{}";
    let doc = Document {
        path: "x.json".to_string(),
        text: text.to_string(),
        value: serde_json::from_str(text).unwrap(),
    };
    match check_shape(&shape, &doc) {
        Err(LintError::BadShape { reason }) => assert!(!reason.is_empty()),
        _ => panic!("a rejected shape must surface as a shape error"),
    }
}

#[test]
fn exit_status_aggregates() {
    assert_eq!(exit_status(0, false), 0);
    assert_eq!(exit_status(1, false), 1);
    assert_eq!(exit_status(7, false), 1);
    assert_eq!(exit_status(0, true), 1);
}
