use krot_server::registry::is_valid_label;

#[test]
fn label_grammar() {
    assert!(is_valid_label("alice"));
    assert!(is_valid_label("a"));
    assert!(is_valid_label("a1-b2"));
    assert!(is_valid_label(&"a".repeat(63)));

    assert!(!is_valid_label(""));
    assert!(!is_valid_label("Alice"));
    assert!(!is_valid_label("-alice"));
    assert!(!is_valid_label("alice-"));
    assert!(!is_valid_label("al ice"));
    assert!(!is_valid_label("admin"));
    assert!(!is_valid_label(&"a".repeat(64)));
}

#[test]
fn label_edge_cases() {
    assert!(is_valid_label("9"));
    assert!(is_valid_label("ab"));
    assert!(is_valid_label("a--b"));
    assert!(is_valid_label("admin1"));
    assert!(!is_valid_label("-"));
    assert!(!is_valid_label("a.b"));
    assert!(!is_valid_label("\u{e9}t\u{e9}"));
    assert!(!is_valid_label("a\u{e9}b"));
}
