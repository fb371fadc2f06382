use zino::json::{JsonMap, JsonValue};
use zino::validation::Validation;

#[test]
fn new_validation_succeeds() {
    let v = Validation::new();
    assert!(v.is_success());
    assert!(v.failed_entries().is_empty());
}

#[test]
fn record_fail_makes_validation_fail() {
    let mut v = Validation::new();
    v.record_fail("name".to_string(), "should be nonempty".to_string());
    assert!(!v.is_success());
    match v.failed_entries().get("name") {
        Some(JsonValue::Text(s)) => assert_eq!(s, "should be nonempty"),
        _ => panic!("missing failure"),
    }
    v.record_fail("name".to_string(), "other".to_string());
    assert_eq!(v.failed_entries().len(), 1);
}

#[test]
fn parse_string_takes_only_strings() {
    let mut m = JsonMap::new();
    m.upsert("s".to_string(), JsonValue::Text("hello".to_string()));
    m.upsert("n".to_string(), JsonValue::Number("3".to_string()));
    assert_eq!(Validation::parse_string(m.get("s")), Some("hello".to_string()));
    assert_eq!(Validation::parse_string(m.get("n")), None);
    assert_eq!(Validation::parse_string(m.get("missing")), None);
}

#[test]
fn parse_uuid_hyphenated() {
    let v = JsonValue::Text("a1a2a3a4-b1b2-c1c2-d1d2-d3d4d5d6d7d8".to_string());
    let r = Validation::parse_uuid(Some(&v));
    assert_eq!(r, Some(Ok(0xa1a2a3a4b1b2c1c2d1d2d3d4d5d6d7d8u128)));
}

#[test]
fn parse_uuid_simple_form() {
    let v = JsonValue::Text("a1a2a3a4b1b2c1c2d1d2d3d4d5d6d7d8".to_string());
    let r = Validation::parse_uuid(Some(&v));
    assert_eq!(r, Some(Ok(0xa1a2a3a4b1b2c1c2d1d2d3d4d5d6d7d8u128)));
}

#[test]
fn parse_uuid_reports_error() {
    let v = JsonValue::Text("not-a-uuid".to_string());
    match Validation::parse_uuid(Some(&v)) {
        Some(Err(message)) => assert!(!message.is_empty()),
        other => panic!("unexpected {:?}", other),
    }
}

#[test]
fn parse_uuid_ignores_non_strings() {
    assert_eq!(Validation::parse_uuid(Some(&JsonValue::Bool(true))), None);
    assert_eq!(Validation::parse_uuid(None), None);
}
