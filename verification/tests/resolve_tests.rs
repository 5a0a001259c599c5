use splint::LintError;
use splint::catalog::{CatalogEntry, catalog};
use splint::resolve::{classify_remote, resolve, resolve_catalog};

fn entry(name: &str, patterns: &[&str], location: &str) -> CatalogEntry {
    CatalogEntry {
        name: name.to_string(),
        description: String::new(),
        file_match: patterns.iter().map(|p| p.to_string()).collect(),
        location: location.to_string(),
    }
}

#[test]
fn deterministic_matching() {
    let entries = catalog();
    let a = resolve(&entries, "package.json", &None).unwrap();
    let b = resolve(&entries, "package.json", &None).unwrap();
    assert_eq!(a.len(), b.len());
    for (x, y) in a.iter().zip(b.iter()) {
        assert_eq!(x.label, y.label);
        assert_eq!(x.location, y.location);
        assert_eq!(x.remote, y.remote);
    }
    assert_eq!(a.len(), 1);
    assert_eq!(a[0].label.as_deref(), Some("package.json"));
}

#[test]
fn no_match_is_a_no_op() {
    let entries = catalog();
    let refs = resolve(&entries, "definitely.not.catalogued.xyz", &None).unwrap();
    assert!(refs.is_empty());
}

#[test]
fn explicit_override_precedence() {
    // the file name would match the catalog, yet the explicit shape wins
    let entries = catalog();
    let refs = resolve(&entries, "package.json", &Some("shapes/custom.yaml".to_string())).unwrap();
    assert_eq!(refs.len(), 1);
    assert_eq!(refs[0].label, None);
    assert_eq!(refs[0].location, "shapes/custom.yaml");
    assert!(!refs[0].remote);

    let refs = resolve(&entries, "package.json", &Some("https://example.test/s.json".to_string()))
        .unwrap();
    assert_eq!(refs.len(), 1);
    assert_eq!(refs[0].label, None);
    assert!(refs[0].remote);
}

#[test]
fn classify_location_kinds() {
    assert!(classify_remote("http://example.test/a.json"));
    assert!(classify_remote("https://example.test/a.json"));
    assert!(!classify_remote("a/local/path.yaml"));
    assert!(!classify_remote("ftp"));
}

#[test]
fn multiple_entries_each_contribute() {
    let entries = vec![
        entry("first", &["conf.*"], "https://example.test/first.json"),
        entry("second", &["nope"], "second.json"),
        entry("third", &["conf.yaml", "conf.*"], "third.json"),
    ];
    let refs = resolve_catalog(&entries, "conf.yaml").unwrap();
    // first and third match; third only once though two of its patterns match
    assert_eq!(refs.len(), 2);
    assert_eq!(refs[0].label.as_deref(), Some("first"));
    assert!(refs[0].remote);
    assert_eq!(refs[1].label.as_deref(), Some("third"));
    assert_eq!(refs[1].location, "third.json");
    assert!(!refs[1].remote);
}

#[test]
fn uncompilable_pattern_aborts() {
    let entries = vec![
        entry("fine", &["*.yaml"], "fine.json"),
        entry("broken", &["["], "broken.json"),
    ];
    match resolve_catalog(&entries, "conf.yaml") {
        Err(LintError::BadPattern { entry, pattern }) => {
            assert_eq!(entry, "broken");
            assert_eq!(pattern, "[");
        }
        other => panic!("expected a pattern defect, got {:?}", other.is_ok()),
    }
}

#[test]
fn uncompilable_pattern_after_match_is_not_reached() {
    // within one entry the first matching pattern selects it, so a later
    // uncompilable pattern of the same entry is never reached
    let entries = vec![entry("e", &["conf.yaml", "["], "e.json")];
    let refs = resolve_catalog(&entries, "conf.yaml").unwrap();
    assert_eq!(refs.len(), 1);
}
