use sagoin::error::Error;
use sagoin::props::PropMap;

#[test]
fn parse_property_file() {
    let m = PropMap::parse(b"# comment\nbaseURL=https://x\ncourseKey = abc\nbaseURL=https://y\n")
        .unwrap();
    assert_eq!(m.get("baseURL"), Some(&"https://y".to_string()));
    assert_eq!(m.get("courseKey"), Some(&"abc".to_string()));
    assert_eq!(m.get("missing"), None);
    assert_eq!(m.entries().len(), 2);
}

#[test]
fn parse_empty_file() {
    let m = PropMap::parse(b"").unwrap();
    assert!(m.entries().is_empty());
}

#[test]
fn insert_replaces() {
    let mut m = PropMap::new();
    m.insert("k".into(), "1".into());
    m.insert("k".into(), "2".into());
    assert_eq!(m.entries().len(), 1);
    assert_eq!(m.get("k"), Some(&"2".to_string()));
    assert!(m.contains_key("k"));
}

#[test]
fn missing_property_error() {
    let m = PropMap::new();
    assert!(matches!(m.get_prop("submitURL"), Err(Error::MissingProperty(ref k)) if k == "submitURL"));
}
