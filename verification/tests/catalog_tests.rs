use splint::catalog::catalog;

#[test]
fn all_file_matches_compile() {
    for schema in catalog() {
        for file_match in schema.file_match {
            assert!(glob::Pattern::new(&file_match).is_ok())
        }
    }
}

#[test]
fn test_file_matches() {
    for (file, expect) in &[(".angular-cli.json", ".angular-cli.json")] {
        assert_eq!(
            catalog().iter().find_map(|value| value
                .file_match
                .iter()
                .find(|pat| glob::Pattern::new(pat).unwrap().matches(file))
                .map(|_| value.name.clone())),
            Some(expect.to_string())
        )
    }
}

#[test]
fn catalog_entries_are_well_formed() {
    let entries = catalog();
    assert!(entries.len() >= 1);
    for e in &entries {
        assert!(!e.name.is_empty());
        assert!(!e.location.is_empty());
    }
    // names are unique
    for (i, a) in entries.iter().enumerate() {
        for b in entries.iter().skip(i + 1) {
            assert_ne!(a.name, b.name);
        }
    }
}
