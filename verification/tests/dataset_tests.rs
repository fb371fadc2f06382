use zino::dataset::{Dataset, DatasetFields};
use zino::json::{JsonMap, JsonValue};
use zino::model::Model;

fn version(id: u128) -> u128 {
    (id >> 76) & 0xf
}

fn variant(id: u128) -> u128 {
    (id >> 62) & 0x3
}

#[test]
fn new_dataset_has_random_v4_id() {
    let a = Dataset::new();
    let b = Dataset::new();
    assert_eq!(version(a.id()), 4);
    assert_eq!(variant(a.id()), 2);
    assert_ne!(a.id(), b.id());
    assert_eq!(a.name(), "");
}

#[test]
fn default_dataset_is_blank() {
    let d = Dataset::default();
    assert_eq!(d.id(), 0);
    assert_eq!(d.name(), "");
}

#[test]
fn model_name_is_dataset() {
    assert_eq!(Dataset::model_name(), "dataset");
}

#[test]
fn read_map_sets_id_and_name() {
    let mut d = Dataset::new();
    let mut data = JsonMap::new();
    data.upsert("id".to_string(), JsonValue::Text("550e8400-e29b-41d4-a716-446655440000".to_string()));
    data.upsert("name".to_string(), JsonValue::Text("sales".to_string()));
    let v = d.read_map(data);
    assert!(v.is_success());
    assert_eq!(d.id(), 0x550e8400e29b41d4a716446655440000u128);
    assert_eq!(d.name(), "sales");
}

#[test]
fn read_map_reports_bad_id_and_keeps_old_id() {
    let mut d = Dataset::new();
    let before = d.id();
    let mut data = JsonMap::new();
    data.upsert("id".to_string(), JsonValue::Text("zzz".to_string()));
    data.upsert("name".to_string(), JsonValue::Text("sales".to_string()));
    let v = d.read_map(data);
    assert!(!v.is_success());
    assert!(v.failed_entries().contains_key("id"));
    assert!(!v.failed_entries().contains_key("name"));
    assert_eq!(d.id(), before);
}

#[test]
fn read_map_reports_missing_name() {
    let mut d = Dataset::new();
    let before = d.id();
    let data = JsonMap::new();
    let v = d.read_map(data);
    assert!(!v.is_success());
    assert_eq!(v.failed_entries().len(), 1);
    match v.failed_entries().get("name") {
        Some(JsonValue::Text(s)) => assert_eq!(s, "should be nonempty"),
        _ => panic!("missing name failure"),
    }
    assert_eq!(d.id(), before);
}

#[test]
fn read_map_ignores_non_string_name() {
    let mut d = Dataset::new();
    let mut data = JsonMap::new();
    data.upsert("name".to_string(), JsonValue::Number("7".to_string()));
    let v = d.read_map(data);
    assert!(v.failed_entries().contains_key("name"));
    assert_eq!(d.name(), "");
}

#[test]
fn read_parsed_map_takes_parsed_id() {
    let mut d = Dataset::new();
    let mut data = JsonMap::new();
    data.upsert("name".to_string(), JsonValue::Text("n".to_string()));
    let v = d.read_parsed_map(Some(Ok(42)), &data);
    assert!(v.is_success());
    assert_eq!(d.id(), 42);
    let v = d.read_parsed_map(Some(Err("bad".to_string())), &data);
    match v.failed_entries().get("id") {
        Some(JsonValue::Text(s)) => assert_eq!(s, "bad"),
        _ => panic!("missing id failure"),
    }
    assert_eq!(d.id(), 42);
}

#[test]
fn fields_round_trip() {
    let mut content = JsonMap::new();
    content.upsert("k".to_string(), JsonValue::Null);
    let d = Dataset::from_fields(DatasetFields {
        id: 9,
        name: "n".to_string(),
        namespace: "ns".to_string(),
        visibility: "internal".to_string(),
        status: "active".to_string(),
        description: String::new(),
        project_id: 1,
        task_id: Some(2),
        valid_from: 10,
        expires_at: 20,
        tags: vec![3, 4],
        content,
        metrics: JsonMap::new(),
        extras: JsonMap::new(),
        manager_id: 5,
        maintainer_id: 6,
        created_at: 30,
        updated_at: 40,
        version: 7,
        edition: 8,
    });
    assert_eq!(d.id(), 9);
    assert_eq!(d.name(), "n");
    let f = d.into_fields();
    assert_eq!(f.namespace, "ns");
    assert_eq!(f.task_id, Some(2));
    assert_eq!(f.tags, vec![3, 4]);
    assert!(f.content.contains_key("k"));
    assert_eq!((f.version, f.edition, f.updated_at), (7, 8, 40));
}

#[test]
fn read_map_reports_id_before_name() {
    let mut d = Dataset::new();
    let mut data = JsonMap::new();
    data.upsert("name".to_string(), JsonValue::Text(String::new()));
    data.upsert("id".to_string(), JsonValue::Text("bad".to_string()));
    let v = d.read_map(data);
    let keys: Vec<&str> = v.failed_entries().entries().iter().map(|(k, _)| k.as_str()).collect();
    assert_eq!(keys, vec!["id", "name"]);
}
