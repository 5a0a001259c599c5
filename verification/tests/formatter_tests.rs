use splint::formatter::{extract, unquote};

#[test]
fn formatter_extraction() {
    let raw = "At \"/a/b\" with schema at \"#/properties/a\": \"is not of type integer\"";
    let (field, reason) = extract(raw).expect("a convention message must extract");
    assert_eq!(field, "/a/b");
    assert_eq!(reason, "is not of type integer");
}

#[test]
fn formatter_extraction_without_quotes() {
    let (field, reason) = extract("At /a with schema at #/x: boom").unwrap();
    assert_eq!(field, "/a");
    assert_eq!(reason, "boom");
}

#[test]
fn formatter_rejects_messages_outside_the_convention() {
    assert!(extract("").is_none());
    assert!(extract("garbage").is_none());
    assert!(extract("At /a with schema at #/x").is_none()); // no reason separator
    assert!(extract("At  with schema at #/x: boom").is_none()); // empty field
    assert!(extract("With /a and schema at #/x: boom").is_none()); // wrong head
    assert!(extract("At /a with schema at : boom").is_none()); // empty schema segment
    assert!(extract("At /a with schema at #/x: ").is_none()); // empty reason
}

#[test]
fn unquote_strips_exactly_one_pair() {
    assert_eq!(unquote("\"abc\""), "abc");
    assert_eq!(unquote("abc"), "abc");
    assert_eq!(unquote("\"\"abc\"\""), "\"abc\"");
    assert_eq!(unquote("\""), "\"");
    assert_eq!(unquote(""), "");
}
