use zino::hook::{decimal_string, rows_affected_message, ModelHooks};
use zino::dataset::Dataset;
use zino::json::JsonMap;
use zino::model::{Error, LogField, LogLevel, Model, QueryContext};
use zino::query::{Mutation, Query};

fn last_record(ctx: &QueryContext) -> (LogLevel, String) {
    let r = ctx.records().last().unwrap();
    (r.level, r.message.clone())
}

#[test]
fn decimal_string_writes_digits() {
    assert_eq!(decimal_string(0), "0");
    assert_eq!(decimal_string(7), "7");
    assert_eq!(decimal_string(1024), "1024");
    assert_eq!(decimal_string(u64::MAX), "18446744073709551615");
}

#[test]
fn rows_messages() {
    assert_eq!(rows_affected_message(Some(0)), "no rows affected or fetched");
    assert_eq!(rows_affected_message(Some(1)), "only one row affected or fetched");
    assert_eq!(rows_affected_message(Some(42)), "42 rows affected or fetched");
    assert_eq!(rows_affected_message(None), "query result has not been recorded");
}

#[test]
fn before_scan_creates_context() {
    let ctx = Dataset::before_scan("SELECT 1").ok().unwrap();
    assert_eq!(ctx.model_name(), "dataset");
    assert_eq!(ctx.rows_affected(), None);
    assert!(!ctx.is_success());
    assert_eq!(ctx.records().len(), 1);
    assert_eq!(last_record(&ctx), (LogLevel::Debug, String::new()));
    assert_eq!(
        ctx.records()[0].fields,
        vec![LogField::ModelName, LogField::QueryId, LogField::Query("SELECT 1".to_string())]
    );
    assert_eq!((ctx.query_id() >> 76) & 0xf, 4);
}

#[test]
fn after_scan_reports_rows() {
    let mut ctx = QueryContext::new("dataset");
    ctx.set_query("SELECT *".to_string());
    ctx.set_query_result(Some(3), true);
    assert!(Dataset::after_scan(&mut ctx).is_ok());
    assert_eq!(last_record(&ctx), (LogLevel::Info, "3 rows affected or fetched".to_string()));
    assert_eq!(
        ctx.records()[0].fields,
        vec![
            LogField::ModelName,
            LogField::QueryId,
            LogField::Query("SELECT *".to_string()),
            LogField::Arguments,
            LogField::ExecutionTime,
        ]
    );
}

#[test]
fn after_save_records_only_failures() {
    let mut ctx = QueryContext::new("dataset");
    ctx.set_query_result(Some(1), true);
    assert!(Dataset::after_save(&mut ctx, ()).is_ok());
    assert!(ctx.records().is_empty());
    ctx.set_query_result(None, false);
    assert!(Dataset::after_insert(&mut ctx, ()).is_ok());
    assert_eq!(last_record(&ctx), (LogLevel::Error, "fail to save a model into the table".to_string()));
    assert_eq!(
        ctx.records()[0].fields,
        vec![LogField::QueryId, LogField::Query(String::new()), LogField::Arguments]
    );
    assert!(Dataset::after_upsert(&mut ctx, ()).is_ok());
    assert_eq!(ctx.records().len(), 2);
}

#[test]
fn after_query_hooks_record_failures() {
    let mut ctx = QueryContext::new("dataset");
    assert!(Dataset::after_count(&mut ctx).is_ok());
    assert_eq!(last_record(&ctx).1, "fail to count the models in the table");
    assert!(Dataset::after_aggregate(&mut ctx).is_ok());
    assert_eq!(last_record(&ctx).1, "fail to aggregate the models in the table");
    assert!(Dataset::after_query(&mut ctx).is_ok());
    assert_eq!(last_record(&ctx).1, "fail to select the models from the table");
    assert!(Dataset::after_mutation(&mut ctx).is_ok());
    assert_eq!(last_record(&ctx).1, "fail to update the models in the table");
    assert_eq!(ctx.records().len(), 4);
}

#[test]
fn after_delete_warns_or_errs() {
    let mut ctx = QueryContext::new("dataset");
    ctx.set_query_result(Some(1), true);
    assert!(Dataset::new().after_delete(&mut ctx, ()).is_ok());
    assert_eq!(last_record(&ctx), (LogLevel::Warn, "a model was deleted from the table".to_string()));
    ctx.set_query_result(Some(0), false);
    assert!(Dataset::new().after_delete(&mut ctx, ()).is_ok());
    assert_eq!(last_record(&ctx), (LogLevel::Error, "fail to detele a model from the table".to_string()));
    assert_eq!(ctx.records()[1].fields, vec![LogField::Query(String::new()), LogField::QueryId]);
}

#[test]
fn default_hooks_succeed() {
    let mut note = Dataset::new();
    assert!(Dataset::before_extract().is_ok());
    assert!(Dataset::before_create_table().is_ok());
    assert!(Dataset::after_create_table().is_ok());
    assert!(matches!(note.before_prepare(), Ok(None)));
    assert!(matches!(note.before_save(), Ok(())));
    assert!(matches!(note.before_update(), Ok(())));
    assert!(matches!(note.before_delete(), Ok(())));
    assert!(Dataset::before_mock().ok().unwrap().is_empty());
    let mut m = JsonMap::new();
    assert!(Dataset::before_validation(&mut m, None).is_ok());
    assert!(Dataset::after_decode(&mut m).is_ok());
    assert!(m.is_empty());
    assert!(note.after_mock().is_ok());
}

#[test]
fn context_formats_arguments() {
    let mut ctx = QueryContext::new("dataset");
    assert_eq!(ctx.format_arguments(), "");
    ctx.add_argument("a".to_string());
    ctx.add_argument("b".to_string());
    ctx.set_query("SELECT ?".to_string());
    assert_eq!(ctx.format_arguments(), "a, b");
    assert_eq!(ctx.query(), "SELECT ?");
    let e = Error::new("boom".to_string());
    assert_eq!(e.message_text(), "boom");
}

#[test]
fn query_hooks_accept_queries() {
    let query = Query::new(JsonMap::new());
    let mut mutation = Mutation::new(JsonMap::new());
    assert!(Dataset::before_count(&query).is_ok());
    assert!(Dataset::before_aggregate(&query).is_ok());
    assert!(Dataset::before_query(&query).is_ok());
    assert!(Dataset::before_mutation(&query, &mut mutation).is_ok());
    let mut query = query;
    assert!(Dataset::before_list(&mut query, None).is_ok());
    assert!(Dataset::before_batch_delete(&mut query, None).is_ok());
}

#[test]
fn hooks_report_metrics() {
    let mut ctx = QueryContext::new("dataset");
    assert!(ctx.metrics().is_empty());
    assert!(ctx.start_time() >= 0);
    assert!(Dataset::after_count(&mut ctx).is_ok());
    assert!(Dataset::after_query(&mut ctx).is_ok());
    ctx.set_query_result(Some(1), true);
    assert!(Dataset::after_aggregate(&mut ctx).is_ok());
    assert!(Dataset::after_mutation(&mut ctx).is_ok());
    assert!(Dataset::after_insert(&mut ctx, ()).is_ok());
    assert!(Dataset::after_archive(&mut ctx, ()).is_ok());
    assert!(Dataset::new().after_delete(&mut ctx, ()).is_ok());
    assert_eq!(
        ctx.metrics().clone(),
        vec!["count", "query", "aggregate", "mutation", "insert", "archive", "delete"]
            .into_iter()
            .map(String::from)
            .collect::<Vec<_>>()
    );
}

#[test]
fn default_object_hooks_keep_order() {
    let mut m = JsonMap::new();
    m.upsert("b".to_string(), zino::json::JsonValue::Null);
    m.upsert("a".to_string(), zino::json::JsonValue::Null);
    assert!(Dataset::before_respond(&mut m, None).is_ok());
    assert!(Dataset::after_populate(&mut m).is_ok());
    let keys: Vec<&str> = m.entries().iter().map(|(k, _)| k.as_str()).collect();
    assert_eq!(keys, vec!["b", "a"]);
}
