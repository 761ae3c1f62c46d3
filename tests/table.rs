use text_expander::table::ExpansionFile;

fn chars(s: &str) -> Vec<char> {
    s.chars().collect()
}

#[test]
fn lookup_prefers_case_sensitive_section() {
    let mut t = ExpansionFile::new();
    t.insert_case_insensitive("sig".to_string(), "Regards".to_string());
    t.insert_case_sensitive("sig".to_string(), "Best".to_string());
    assert_eq!(t.lookup(&chars("sig")), Some("Best".to_string()));
}

#[test]
fn lookup_is_exact() {
    let mut t = ExpansionFile::new();
    t.insert_case_insensitive("omw".to_string(), "on my way".to_string());
    assert_eq!(t.lookup(&chars("omw")), Some("on my way".to_string()));
    assert_eq!(t.lookup(&chars("OMW")), None);
    assert_eq!(t.lookup(&chars("om")), None);
    assert_eq!(t.lookup(&chars("")), None);
}

#[test]
fn insert_replaces_existing_trigger() {
    let mut t = ExpansionFile::new();
    t.insert_case_sensitive("x".to_string(), "one".to_string());
    t.insert_case_sensitive("y".to_string(), "two".to_string());
    t.insert_case_sensitive("x".to_string(), "three".to_string());
    assert_eq!(t.lookup(&chars("x")), Some("three".to_string()));
    assert_eq!(t.lookup(&chars("y")), Some("two".to_string()));
}
