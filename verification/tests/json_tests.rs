use zino::json::{JsonMap, JsonValue};

fn text(s: &str) -> JsonValue {
    JsonValue::Text(s.to_string())
}

fn as_text(v: Option<&JsonValue>) -> Option<String> {
    match v {
        Some(JsonValue::Text(s)) => Some(s.clone()),
        _ => None,
    }
}

#[test]
fn new_map_is_empty() {
    let m = JsonMap::new();
    assert!(m.is_empty());
    assert_eq!(m.len(), 0);
    assert!(m.get("a").is_none());
}

#[test]
fn upsert_then_get_reads_back() {
    let mut m = JsonMap::new();
    m.upsert("a".to_string(), text("1"));
    m.upsert("b".to_string(), JsonValue::Bool(true));
    assert_eq!(m.len(), 2);
    assert_eq!(as_text(m.get("a")), Some("1".to_string()));
    assert!(matches!(m.get("b"), Some(JsonValue::Bool(true))));
    assert!(m.contains_key("a"));
    assert!(!m.contains_key("c"));
}

#[test]
fn upsert_replaces_existing_value() {
    let mut m = JsonMap::new();
    m.upsert("a".to_string(), text("1"));
    m.upsert("a".to_string(), text("2"));
    assert_eq!(m.len(), 1);
    assert_eq!(as_text(m.get("a")), Some("2".to_string()));
}

#[test]
fn append_prefers_appended_values_and_empties_other() {
    let mut m = JsonMap::new();
    m.upsert("a".to_string(), text("1"));
    m.upsert("b".to_string(), text("2"));
    let mut other = JsonMap::new();
    other.upsert("b".to_string(), text("3"));
    other.upsert("c".to_string(), JsonValue::Null);
    m.append(&mut other);
    assert!(other.is_empty());
    assert_eq!(m.len(), 3);
    assert_eq!(as_text(m.get("a")), Some("1".to_string()));
    assert_eq!(as_text(m.get("b")), Some("3".to_string()));
    assert!(matches!(m.get("c"), Some(JsonValue::Null)));
}

#[test]
fn duplicate_copies_value() {
    let v = JsonValue::Number("12.5".to_string());
    match v.duplicate() {
        JsonValue::Number(s) => assert_eq!(s, "12.5"),
        _ => panic!("wrong kind"),
    }
    assert_eq!(text("x").as_text().map(|s| s.as_str()), Some("x"));
    assert!(JsonValue::Null.as_text().is_none());
}

#[test]
fn entries_keep_insertion_order() {
    let mut m = JsonMap::new();
    m.upsert("b".to_string(), text("1"));
    m.upsert("a".to_string(), text("2"));
    m.upsert("b".to_string(), text("3"));
    let mut other = JsonMap::new();
    other.upsert("c".to_string(), text("4"));
    other.upsert("a".to_string(), text("5"));
    m.append(&mut other);
    let keys: Vec<&str> = m.entries().iter().map(|(k, _)| k.as_str()).collect();
    assert_eq!(keys, vec!["b", "a", "c"]);
    assert_eq!(as_text(m.get("b")), Some("3".to_string()));
    assert_eq!(as_text(m.get("a")), Some("5".to_string()));
}
