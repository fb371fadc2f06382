//! Hooks that run around the operations on a model.
use vstd::prelude::*;
use crate::identifier::{uuid_variant, uuid_version};
use crate::json::{JsonMap, JsonValueView};
use crate::model::{error_fields, Error, LogField, LogFieldView, LogLevel, Model, QueryContext, QueryContextView};
use crate::query::{Mutation, Query};

verus! {

/// The character of a decimal digit.
pub open spec fn digit_char(d: nat) -> char {
    if d == 0 {
        '0'
    } else if d == 1 {
        '1'
    } else if d == 2 {
        '2'
    } else if d == 3 {
        '3'
    } else if d == 4 {
        '4'
    } else if d == 5 {
        '5'
    } else if d == 6 {
        '6'
    } else if d == 7 {
        '7'
    } else if d == 8 {
        '8'
    } else {
        '9'
    }
}

/// The decimal text of a natural number, without leading zeros.
pub open spec fn decimal_text(n: nat) -> Seq<char>
    decreases n,
{
    if n < 10 {
        seq![digit_char(n)]
    } else {
        decimal_text(n / 10).push(digit_char(n % 10))
    }
}

fn digit_str(d: u64) -> (r: &'static str)
    requires
        d < 10,
    ensures
        r@ == seq![digit_char(d as nat)],
{
    if d == 0 {
        proof { reveal_strlit("0"); }
        "0"
    } else if d == 1 {
        proof { reveal_strlit("1"); }
        "1"
    } else if d == 2 {
        proof { reveal_strlit("2"); }
        "2"
    } else if d == 3 {
        proof { reveal_strlit("3"); }
        "3"
    } else if d == 4 {
        proof { reveal_strlit("4"); }
        "4"
    } else if d == 5 {
        proof { reveal_strlit("5"); }
        "5"
    } else if d == 6 {
        proof { reveal_strlit("6"); }
        "6"
    } else if d == 7 {
        proof { reveal_strlit("7"); }
        "7"
    } else if d == 8 {
        proof { reveal_strlit("8"); }
        "8"
    } else {
        proof { reveal_strlit("9"); }
        "9"
    }
}

/// The decimal text of a number.
pub fn decimal_string(n: u64) -> (r: String)
    ensures
        r@ == decimal_text(n as nat),
    decreases n,
{
    if n < 10 {
        digit_str(n).to_owned()
    } else {
        let mut r = decimal_string(n / 10);
        r.append(digit_str(n % 10));
        r
    }
}

/// The message that reports how many rows a query affected or fetched.
pub open spec fn rows_message(rows_affected: Option<u64>) -> Seq<char> {
    match rows_affected {
        Some(n) => if n == 0 {
            "no rows affected or fetched"@
        } else if n == 1 {
            "only one row affected or fetched"@
        } else {
            decimal_text(n as nat) + " rows affected or fetched"@
        },
        None => "query result has not been recorded"@,
    }
}

/// The message that reports how many rows a query affected or fetched.
pub fn rows_affected_message(rows_affected: Option<u64>) -> (r: String)
    ensures
        r@ == rows_message(rows_affected),
{
    match rows_affected {
        Some(0) => "no rows affected or fetched".to_owned(),
        Some(1) => "only one row affected or fetched".to_owned(),
        Some(n) => {
            let mut r = decimal_string(n);
            r.append(" rows affected or fetched");
            r
        },
        None => "query result has not been recorded".to_owned(),
    }
}

/// The fields of the event before scanning: the model's name, the query id and the query text.
pub open spec fn scan_fields(query: Seq<char>) -> Seq<LogFieldView> {
    seq![LogFieldView::ModelName, LogFieldView::QueryId, LogFieldView::Query(query)]
}

/// The fields of the event after scanning: the model's name, the query id, the
/// query text, the arguments and the execution time.
pub open spec fn scanned_fields(query: Seq<char>) -> Seq<LogFieldView> {
    seq![
        LogFieldView::ModelName,
        LogFieldView::QueryId,
        LogFieldView::Query(query),
        LogFieldView::Arguments,
        LogFieldView::ExecutionTime,
    ]
}

/// The fields of the event after deleting: the query text and the query id.
pub open spec fn delete_fields(query: Seq<char>) -> Seq<LogFieldView> {
    seq![LogFieldView::Query(query), LogFieldView::QueryId]
}

fn scan_field_list(query: String) -> (r: Vec<LogField>)
    ensures
        r@.map_values(|f: LogField| f@) == scan_fields(query@),
{
    let ghost q = query@;
    let mut r: Vec<LogField> = Vec::new();
    r.push(LogField::ModelName);
    r.push(LogField::QueryId);
    r.push(LogField::Query(query));
    assert(r@.map_values(|f: LogField| f@) =~= scan_fields(q));
    r
}

fn scanned_field_list(query: String) -> (r: Vec<LogField>)
    ensures
        r@.map_values(|f: LogField| f@) == scanned_fields(query@),
{
    let ghost q = query@;
    let mut r: Vec<LogField> = Vec::new();
    r.push(LogField::ModelName);
    r.push(LogField::QueryId);
    r.push(LogField::Query(query));
    r.push(LogField::Arguments);
    r.push(LogField::ExecutionTime);
    assert(r@.map_values(|f: LogField| f@) =~= scanned_fields(q));
    r
}

fn delete_field_list(query: String) -> (r: Vec<LogField>)
    ensures
        r@.map_values(|f: LogField| f@) == delete_fields(query@),
{
    let ghost q = query@;
    let mut r: Vec<LogField> = Vec::new();
    r.push(LogField::Query(query));
    r.push(LogField::QueryId);
    assert(r@.map_values(|f: LogField| f@) =~= delete_fields(q));
    r
}

/// The context after a hook that records `message` as an error when the query failed.
pub open spec fn after_failure(ctx: QueryContextView, message: Seq<char>) -> QueryContextView {
    if ctx.success {
        ctx
    } else {
        ctx.with_record(LogLevel::Error, message, error_fields(ctx.query))
    }
}

/// Records `message` as an error when the query failed.
pub fn record_failure(ctx: &mut QueryContext, message: &str)
    ensures
        final(ctx)@ == after_failure(old(ctx)@, message@),
{
    if !ctx.is_success() {
        ctx.record_error(message);
    }
}

/// Hooks for a model. Each hook has a default that an implementation may replace.
pub trait ModelHooks: Model {
    /// Model data.
    type Data: Default;
    /// Extension data.
    type Extension: Clone + Send + Sync + 'static;

    /// A hook running before extracting the model data.
    fn before_extract() -> (r: Result<(), Error>)
        default_ensures
            r is Ok,
    {
        Ok(())
    }

    /// A hook running after extracting the model data.
    fn after_extract(&mut self, extension: Self::Extension) -> (r: Result<(), Error>)
        default_ensures
            r is Ok,
            *final(self) == *old(self),
    {
        Ok(())
    }

    /// A hook running before validating the model data.
    fn before_validation(model: &mut JsonMap, extension: Option<&Self::Extension>) -> (r: Result<(), Error>)
        default_ensures
            r is Ok,
            *final(model) == *old(model),
    {
        Ok(())
    }

    /// A hook running after validating the model data.
    fn after_validation(&mut self, model: &mut JsonMap) -> (r: Result<(), Error>)
        default_ensures
            r is Ok,
            *final(self) == *old(self),
            *final(model) == *old(model),
    {
        Ok(())
    }

    /// A hook running before creating the table.
    fn before_create_table() -> (r: Result<(), Error>)
        default_ensures
            r is Ok,
    {
        Ok(())
    }

    /// A hook running after creating the table.
    fn after_create_table() -> (r: Result<(), Error>)
        default_ensures
            r is Ok,
    {
        Ok(())
    }

    /// A hook running before preparing a query for the model.
    /// It can be used to calculate a dynamic table name.
    fn before_prepare(&self) -> (r: Result<Option<String>, Error>)
        default_ensures
            r matches Ok(name) && name is None,
    {
        Ok(None)
    }

    /// A hook running before scanning the table: creates the query's context
    /// and records the query text at the debug level.
    fn before_scan(query: &str) -> (r: Result<QueryContext, Error>)
        default_ensures
            r matches Ok(ctx) && {
                &&& ctx@.model_name == Self::spec_model_name()
                &&& uuid_version(ctx@.query_id) == 4
                &&& uuid_variant(ctx@.query_id) == 2
                &&& ctx@.query == Seq::<char>::empty()
                &&& ctx@.arguments == Seq::<Seq<char>>::empty()
                &&& ctx@.rows_affected is None
                &&& !ctx@.success
                &&& ctx@.records == seq![(LogLevel::Debug, Seq::<char>::empty(), scan_fields(query@))]
            },
    {
        let model_name = Self::model_name();
        let mut ctx = QueryContext::new(model_name);
        ctx.record(LogLevel::Debug, String::new(), scan_field_list(query.to_owned()));
        Ok(ctx)
    }

    /// A hook running after scanning the table: records, at the info level,
    /// how many rows the query affected or fetched.
    fn after_scan(ctx: &mut QueryContext) -> (r: Result<(), Error>)
        default_ensures
            r is Ok,
            final(ctx)@ == old(ctx)@.with_record(
                LogLevel::Info,
                rows_message(old(ctx)@.rows_affected),
                scanned_fields(old(ctx)@.query),
            ),
    {
        let message = rows_affected_message(ctx.rows_affected());
        let fields = scanned_field_list(ctx.query().clone());
        ctx.record(LogLevel::Info, message, fields);
        Ok(())
    }

    /// A hook running before checking the constraints when inserting a model into the table.
    fn before_insert_check(&mut self, extension: Option<&Self::Extension>) -> (r: Result<(), Error>)
        default_ensures
            r is Ok,
            *final(self) == *old(self),
    {
        Ok(())
    }

    /// A hook running before inserting a model into the table.
    /// By default it runs `before_save` on the model and gives back its result.
    fn before_insert(&mut self) -> (r: Result<Self::Data, Error>)
        default_ensures
            exists|m: &mut Self|
                #[trigger] call_ensures(Self::before_save, (m,), r) && mut_ref_current(m) == *old(self)
                    && mut_ref_future(m) == *final(self),
    {
        self.before_save()
    }

    /// A hook running after inserting a model into the table.
    /// By default it runs `after_save` on the context and gives back its result;
    /// when that is `Ok`, it then reports metrics for the action `insert`.
    fn after_insert(ctx: &mut QueryContext, data: Self::Data) -> (r: Result<(), Error>)
        default_ensures
            exists|c: &mut QueryContext|
                #[trigger] call_ensures(Self::after_save, (c, data), r) && mut_ref_current(c) == *old(ctx)
                    && final(ctx)@ == (if r is Ok {
                    mut_ref_future(c)@.with_metrics("insert"@)
                } else {
                    mut_ref_future(c)@
                }),
    {
        let saved = Self::after_save(ctx, data);
        if saved.is_ok() {
            ctx.emit_metrics("insert");
        }
        saved
    }

    /// A hook running before logically deleting a model from the table.
    /// By default it runs `before_save` on the model and gives back its result.
    fn before_soft_delete(&mut self) -> (r: Result<Self::Data, Error>)
        default_ensures
            exists|m: &mut Self|
                #[trigger] call_ensures(Self::before_save, (m,), r) && mut_ref_current(m) == *old(self)
                    && mut_ref_future(m) == *final(self),
    {
        self.before_save()
    }

    /// A hook running after logically deleting a model from the table.
    /// By default it runs `after_save` on the context and gives back its result;
    /// when that is `Ok`, it then reports metrics for the action `soft_delete`.
    fn after_soft_delete(ctx: &mut QueryContext, data: Self::Data) -> (r: Result<(), Error>)
        default_ensures
            exists|c: &mut QueryContext|
                #[trigger] call_ensures(Self::after_save, (c, data), r) && mut_ref_current(c) == *old(ctx)
                    && final(ctx)@ == (if r is Ok {
                    mut_ref_future(c)@.with_metrics("soft_delete"@)
                } else {
                    mut_ref_future(c)@
                }),
    {
        let saved = Self::after_save(ctx, data);
        if saved.is_ok() {
            ctx.emit_metrics("soft_delete");
        }
        saved
    }

    /// A hook running before locking a model in the table.
    /// By default it runs `before_save` on the model and gives back its result.
    fn before_lock(&mut self) -> (r: Result<Self::Data, Error>)
        default_ensures
            exists|m: &mut Self|
                #[trigger] call_ensures(Self::before_save, (m,), r) && mut_ref_current(m) == *old(self)
                    && mut_ref_future(m) == *final(self),
    {
        self.before_save()
    }

    /// A hook running after locking a model in the table.
    /// By default it runs `after_save` on the context and gives back its result;
    /// when that is `Ok`, it then reports metrics for the action `lock`.
    fn after_lock(ctx: &mut QueryContext, data: Self::Data) -> (r: Result<(), Error>)
        default_ensures
            exists|c: &mut QueryContext|
                #[trigger] call_ensures(Self::after_save, (c, data), r) && mut_ref_current(c) == *old(ctx)
                    && final(ctx)@ == (if r is Ok {
                    mut_ref_future(c)@.with_metrics("lock"@)
                } else {
                    mut_ref_future(c)@
                }),
    {
        let saved = Self::after_save(ctx, data);
        if saved.is_ok() {
            ctx.emit_metrics("lock");
        }
        saved
    }

    /// A hook running before archiving a model in the table.
    /// By default it runs `before_save` on the model and gives back its result.
    fn before_archive(&mut self) -> (r: Result<Self::Data, Error>)
        default_ensures
            exists|m: &mut Self|
                #[trigger] call_ensures(Self::before_save, (m,), r) && mut_ref_current(m) == *old(self)
                    && mut_ref_future(m) == *final(self),
    {
        self.before_save()
    }

    /// A hook running after archiving a model in the table.
    /// By default it runs `after_save` on the context and gives back its result;
    /// when that is `Ok`, it then reports metrics for the action `archive`.
    fn after_archive(ctx: &mut QueryContext, data: Self::Data) -> (r: Result<(), Error>)
        default_ensures
            exists|c: &mut QueryContext|
                #[trigger] call_ensures(Self::after_save, (c, data), r) && mut_ref_current(c) == *old(ctx)
                    && final(ctx)@ == (if r is Ok {
                    mut_ref_future(c)@.with_metrics("archive"@)
                } else {
                    mut_ref_future(c)@
                }),
    {
        let saved = Self::after_save(ctx, data);
        if saved.is_ok() {
            ctx.emit_metrics("archive");
        }
        saved
    }

    /// A hook running before updating a model in the table.
    /// By default it runs `before_save` on the model and gives back its result.
    fn before_update(&mut self) -> (r: Result<Self::Data, Error>)
        default_ensures
            exists|m: &mut Self|
                #[trigger] call_ensures(Self::before_save, (m,), r) && mut_ref_current(m) == *old(self)
                    && mut_ref_future(m) == *final(self),
    {
        self.before_save()
    }

    /// A hook running after updating a model in the table.
    /// By default it runs `after_save` on the context and gives back its result;
    /// when that is `Ok`, it then reports metrics for the action `update`.
    fn after_update(ctx: &mut QueryContext, data: Self::Data) -> (r: Result<(), Error>)
        default_ensures
            exists|c: &mut QueryContext|
                #[trigger] call_ensures(Self::after_save, (c, data), r) && mut_ref_current(c) == *old(ctx)
                    && final(ctx)@ == (if r is Ok {
                    mut_ref_future(c)@.with_metrics("update"@)
                } else {
                    mut_ref_future(c)@
                }),
    {
        let saved = Self::after_save(ctx, data);
        if saved.is_ok() {
            ctx.emit_metrics("update");
        }
        saved
    }

    /// A hook running before updating or inserting a model into the table.
    /// By default it runs `before_save` on the model and gives back its result.
    fn before_upsert(&mut self) -> (r: Result<Self::Data, Error>)
        default_ensures
            exists|m: &mut Self|
                #[trigger] call_ensures(Self::before_save, (m,), r) && mut_ref_current(m) == *old(self)
                    && mut_ref_future(m) == *final(self),
    {
        self.before_save()
    }

    /// A hook running after updating or inserting a model into the table.
    /// By default it runs `after_save` on the context and gives back its result;
    /// when that is `Ok`, it then reports metrics for the action `upsert`.
    fn after_upsert(ctx: &mut QueryContext, data: Self::Data) -> (r: Result<(), Error>)
        default_ensures
            exists|c: &mut QueryContext|
                #[trigger] call_ensures(Self::after_save, (c, data), r) && mut_ref_current(c) == *old(ctx)
                    && final(ctx)@ == (if r is Ok {
                    mut_ref_future(c)@.with_metrics("upsert"@)
                } else {
                    mut_ref_future(c)@
                }),
    {
        let saved = Self::after_save(ctx, data);
        if saved.is_ok() {
            ctx.emit_metrics("upsert");
        }
        saved
    }

    /// A hook running before saving a model into the table.
    fn before_save(&mut self) -> (r: Result<Self::Data, Error>)
        default_ensures
            r is Ok,
            r matches Ok(d) && call_ensures(Self::Data::default, (), d),
            *final(self) == *old(self),
    {
        Ok(Self::Data::default())
    }

    /// A hook running after saving a model into the table: records an error
    /// when the query failed.
    fn after_save(ctx: &mut QueryContext, data: Self::Data) -> (r: Result<(), Error>)
        default_ensures
            r is Ok,
            final(ctx)@ == after_failure(old(ctx)@, "fail to save a model into the table"@),
    {
        record_failure(ctx, "fail to save a model into the table");
        Ok(())
    }

    /// A hook running before deleting a model from the table.
    fn before_delete(&mut self) -> (r: Result<Self::Data, Error>)
        default_ensures
            r is Ok,
            r matches Ok(d) && call_ensures(Self::Data::default, (), d),
            *final(self) == *old(self),
    {
        Ok(Self::Data::default())
    }

    /// A hook running after deleting a model from the table: records a warning
    /// that a model was deleted, or an error when the deletion failed, then
    /// reports metrics for the action `delete`.
    fn after_delete(self, ctx: &mut QueryContext, data: Self::Data) -> (r: Result<(), Error>)
        default_ensures
            r is Ok,
            final(ctx)@ == (if old(ctx)@.success {
                old(ctx)@.with_record(
                    LogLevel::Warn,
                    "a model was deleted from the table"@,
                    delete_fields(old(ctx)@.query),
                )
            } else {
                old(ctx)@.with_record(
                    LogLevel::Error,
                    "fail to detele a model from the table"@,
                    delete_fields(old(ctx)@.query),
                )
            }).with_metrics("delete"@),
    {
        let fields = delete_field_list(ctx.query().clone());
        if ctx.is_success() {
            ctx.record(LogLevel::Warn, "a model was deleted from the table".to_owned(), fields);
        } else {
            ctx.record(LogLevel::Error, "fail to detele a model from the table".to_owned(), fields);
        }
        ctx.emit_metrics("delete");
        Ok(())
    }

    /// A hook running before counting the models in the table.
    fn before_count(query: &Query) -> (r: Result<(), Error>)
        default_ensures
            r is Ok,
    {
        Ok(())
    }

    /// A hook running after counting the models in the table: records an error
    /// when the query failed, then reports metrics for the action `count`.
    fn after_count(ctx: &mut QueryContext) -> (r: Result<(), Error>)
        default_ensures
            r is Ok,
            final(ctx)@ == after_failure(old(ctx)@, "fail to count the models in the table"@).with_metrics("count"@),
    {
        record_failure(ctx, "fail to count the models in the table");
        ctx.emit_metrics("count");
        Ok(())
    }

    /// A hook running before aggregating the models in the table.
    fn before_aggregate(query: &Query) -> (r: Result<(), Error>)
        default_ensures
            r is Ok,
    {
        Ok(())
    }

    /// A hook running after aggregating the models in the table: records an
    /// error when the query failed, then reports metrics for the action `aggregate`.
    fn after_aggregate(ctx: &mut QueryContext) -> (r: Result<(), Error>)
        default_ensures
            r is Ok,
            final(ctx)@ == after_failure(old(ctx)@, "fail to aggregate the models in the table"@).with_metrics("aggregate"@),
    {
        record_failure(ctx, "fail to aggregate the models in the table");
        ctx.emit_metrics("aggregate");
        Ok(())
    }

    /// A hook running before selecting the models with a `Query` from the table.
    fn before_query(query: &Query) -> (r: Result<(), Error>)
        default_ensures
            r is Ok,
    {
        Ok(())
    }

    /// A hook running after selecting the models with a `Query` from the table:
    /// records an error when the query failed, then reports metrics for the action `query`.
    fn after_query(ctx: &mut QueryContext) -> (r: Result<(), Error>)
        default_ensures
            r is Ok,
            final(ctx)@ == after_failure(old(ctx)@, "fail to select the models from the table"@).with_metrics("query"@),
    {
        record_failure(ctx, "fail to select the models from the table");
        ctx.emit_metrics("query");
        Ok(())
    }

    /// A hook running before updating the models with a `Mutation` in the table.
    fn before_mutation(query: &Query, mutation: &mut Mutation) -> (r: Result<(), Error>)
        default_ensures
            r is Ok,
            *final(mutation) == *old(mutation),
    {
        Ok(())
    }

    /// A hook running after updating the models with a `Mutation` in the table:
    /// records an error when the query failed, then reports metrics for the action `mutation`.
    fn after_mutation(ctx: &mut QueryContext) -> (r: Result<(), Error>)
        default_ensures
            r is Ok,
            final(ctx)@ == after_failure(old(ctx)@, "fail to update the models in the table"@).with_metrics("mutation"@),
    {
        record_failure(ctx, "fail to update the models in the table");
        ctx.emit_metrics("mutation");
        Ok(())
    }

    /// A hook running before listing the models with a `Query` from the table.
    fn before_list(query: &mut Query, extension: Option<&Self::Extension>) -> (r: Result<(), Error>)
        default_ensures
            r is Ok,
            *final(query) == *old(query),
    {
        Ok(())
    }

    /// A hook running before batch deleting the models with a `Query` from the table.
    fn before_batch_delete(query: &mut Query, extension: Option<&Self::Extension>) -> (r: Result<(), Error>)
        default_ensures
            r is Ok,
            *final(query) == *old(query),
    {
        Ok(())
    }

    /// A hook running after a query population for the model.
    fn after_populate(model: &mut JsonMap) -> (r: Result<(), Error>)
        default_ensures
            r is Ok,
            *final(model) == *old(model),
    {
        Ok(())
    }

    /// A hook running after decoding the model as a JSON object.
    fn after_decode(model: &mut JsonMap) -> (r: Result<(), Error>)
        default_ensures
            r is Ok,
            *final(model) == *old(model),
    {
        Ok(())
    }

    /// A hook running before returning the model data as a HTTP response.
    fn before_respond(model: &mut JsonMap, extension: Option<&Self::Extension>) -> (r: Result<(), Error>)
        default_ensures
            r is Ok,
            *final(model) == *old(model),
    {
        Ok(())
    }

    /// A hook running before mocking the model data.
    fn before_mock() -> (r: Result<JsonMap, Error>)
        default_ensures
            r matches Ok(m) && m@ == Map::<Seq<char>, JsonValueView>::empty(),
    {
        Ok(JsonMap::new())
    }

    /// A hook running after mocking the model data.
    fn after_mock(&mut self) -> (r: Result<(), Error>)
        default_ensures
            r is Ok,
            *final(self) == *old(self),
    {
        Ok(())
    }
}

} // verus!
