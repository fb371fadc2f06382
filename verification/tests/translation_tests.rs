use zino::json::{JsonMap, JsonValue};
use zino::translation::{
    add_model_fields, build_model_translations, translate_model_entry, FieldDefinition,
    ModelDefinition, Translation,
};

fn pair(k: &str, v: &str) -> (String, Option<String>) {
    (k.to_string(), Some(v.to_string()))
}

fn status_field(name: &str) -> FieldDefinition {
    FieldDefinition {
        name: name.to_string(),
        config: Some(vec![pair("active", "Active"), pair("1", "One"), pair("true", "Yes"), ("skipped".to_string(), None)]),
    }
}

fn text(v: Option<&JsonValue>) -> Option<String> {
    match v {
        Some(JsonValue::Text(s)) => Some(s.clone()),
        _ => None,
    }
}

#[test]
fn with_config_keeps_string_entries() {
    let t = Translation::with_config(&vec![pair("a", "A"), ("b".to_string(), None)]);
    assert!(t.is_ready());
    assert_eq!(text(t.translate(&JsonValue::Text("a".to_string())).as_ref()), Some("A".to_string()));
    assert!(t.translate(&JsonValue::Text("b".to_string())).is_none());
    let empty = Translation::with_config(&vec![("b".to_string(), None)]);
    assert!(!empty.is_ready());
    assert!(!Translation::new().is_ready());
}

#[test]
fn translate_uses_text_of_numbers_and_booleans() {
    let t = Translation::with_config(&vec![pair("1", "One"), pair("true", "Yes"), pair("1", "Uno")]);
    assert_eq!(text(t.translate(&JsonValue::Number("1".to_string())).as_ref()), Some("One".to_string()));
    assert_eq!(text(t.translate(&JsonValue::Bool(true)).as_ref()), Some("Yes".to_string()));
    assert!(t.translate(&JsonValue::Bool(false)).is_none());
    assert!(t.translate(&JsonValue::Null).is_none());
    assert!(t.translate(&JsonValue::Array("[\"1\"]".to_string())).is_none());
}

#[test]
fn translate_model_entry_adds_translated_fields() {
    let defs = vec![ModelDefinition {
        name: "UserProfile".to_string(),
        fields: vec![status_field("status"), status_field("level"), FieldDefinition { name: "plain".to_string(), config: None }],
    }];
    let table = build_model_translations(&defs);
    let mut model = JsonMap::new();
    model.upsert("status".to_string(), JsonValue::Text("active".to_string()));
    model.upsert("level".to_string(), JsonValue::Text("unknown".to_string()));
    model.upsert("plain".to_string(), JsonValue::Text("active".to_string()));
    translate_model_entry(&mut model, "user_profile", &table);
    assert_eq!(model.len(), 5);
    assert_eq!(text(model.get("status_translated")), Some("Active".to_string()));
    assert_eq!(text(model.get("level_translated")), Some("unknown".to_string()));
    assert!(!model.contains_key("plain_translated"));
    assert_eq!(text(model.get("status")), Some("active".to_string()));
}

#[test]
fn translate_model_entry_ignores_other_models() {
    let defs = vec![ModelDefinition { name: "Task".to_string(), fields: vec![status_field("status")] }];
    let table = build_model_translations(&defs);
    let mut model = JsonMap::new();
    model.upsert("status".to_string(), JsonValue::Text("active".to_string()));
    translate_model_entry(&mut model, "dataset", &table);
    assert_eq!(model.len(), 1);
    translate_model_entry(&mut model, "task", &table);
    assert_eq!(text(model.get("status_translated")), Some("Active".to_string()));
}

#[test]
fn model_names_are_snake_cased() {
    let defs = vec![ModelDefinition { name: "DataSet".to_string(), fields: vec![status_field("status")] }];
    let table = build_model_translations(&defs);
    let mut model = JsonMap::new();
    model.upsert("status".to_string(), JsonValue::Bool(true));
    translate_model_entry(&mut model, "DataSet", &table);
    assert!(!model.contains_key("status_translated"));
    translate_model_entry(&mut model, "data_set", &table);
    assert_eq!(text(model.get("status_translated")), Some("Yes".to_string()));
}

#[test]
fn later_definition_replaces_earlier() {
    let defs = vec![
        ModelDefinition { name: "task".to_string(), fields: vec![status_field("status")] },
        ModelDefinition {
            name: "Task".to_string(),
            fields: vec![FieldDefinition { name: "status".to_string(), config: Some(vec![pair("active", "Running")]) }],
        },
    ];
    let table = build_model_translations(&defs);
    let mut model = JsonMap::new();
    model.upsert("status".to_string(), JsonValue::Text("active".to_string()));
    translate_model_entry(&mut model, "task", &table);
    assert_eq!(text(model.get("status_translated")), Some("Running".to_string()));
}

#[test]
fn translating_twice_is_translating_once() {
    let defs = vec![ModelDefinition { name: "task".to_string(), fields: vec![status_field("status")] }];
    let table = build_model_translations(&defs);
    let mut model = JsonMap::new();
    model.upsert("status".to_string(), JsonValue::Text("active".to_string()));
    translate_model_entry(&mut model, "task", &table);
    translate_model_entry(&mut model, "task", &table);
    assert_eq!(model.len(), 2);
    assert_eq!(text(model.get("status_translated")), Some("Active".to_string()));
}

#[test]
fn translated_key_is_overwritten() {
    let defs = vec![ModelDefinition { name: "task".to_string(), fields: vec![status_field("status")] }];
    let table = build_model_translations(&defs);
    let mut model = JsonMap::new();
    model.upsert("status".to_string(), JsonValue::Text("active".to_string()));
    model.upsert("status_translated".to_string(), JsonValue::Text("stale".to_string()));
    translate_model_entry(&mut model, "task", &table);
    assert_eq!(text(model.get("status_translated")), Some("Active".to_string()));
}

#[test]
fn add_model_fields_uses_prefix() {
    let mut table = build_model_translations(&vec![]);
    add_model_fields(&mut table, "x.", &vec![status_field("s")]);
    let mut model = JsonMap::new();
    model.upsert("s".to_string(), JsonValue::Number("1".to_string()));
    translate_model_entry(&mut model, "x", &table);
    assert_eq!(text(model.get("s_translated")), Some("One".to_string()));
}

#[test]
fn field_without_string_entries_is_not_translated() {
    let defs = vec![ModelDefinition {
        name: "task".to_string(),
        fields: vec![FieldDefinition { name: "status".to_string(), config: Some(vec![("active".to_string(), None)]) }],
    }];
    let table = build_model_translations(&defs);
    let mut model = JsonMap::new();
    model.upsert("status".to_string(), JsonValue::Text("active".to_string()));
    translate_model_entry(&mut model, "task", &table);
    assert_eq!(model.len(), 1);
}

#[test]
fn translating_twice_with_translated_field_name() {
    let defs = vec![ModelDefinition {
        name: "task".to_string(),
        fields: vec![status_field("status"), status_field("kind_translated")],
    }];
    let table = build_model_translations(&defs);
    let mut model = JsonMap::new();
    model.upsert("status".to_string(), JsonValue::Text("active".to_string()));
    model.upsert("kind_translated".to_string(), JsonValue::Text("1".to_string()));
    translate_model_entry(&mut model, "task", &table);
    let once = model.len();
    translate_model_entry(&mut model, "task", &table);
    assert_eq!(model.len(), once);
    assert_eq!(text(model.get("kind_translated_translated")), Some("One".to_string()));
    let keys: Vec<&str> = model.entries().iter().map(|(k, _)| k.as_str()).collect();
    assert_eq!(&keys[..2], &["status", "kind_translated"]);
}
