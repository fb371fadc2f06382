//! Models, their errors, and the context of a query run for a model.
use vstd::prelude::*;
use crate::datetime::now_micros;
use crate::identifier::{new_v4_uuid, uuid_variant, uuid_version};
use crate::json::JsonMap;
use crate::validation::Validation;

verus! {

/// An error reported by a model operation.
pub struct Error {
    message: String,
}

impl Error {
    /// Creates an error with a message.
    pub fn new(message: String) -> (r: Error)
        ensures
            r.message() == message@,
    {
        Error { message }
    }

    /// The text of the error's message.
    pub closed spec fn message(&self) -> Seq<char> {
        self.message@
    }

    /// The error's message.
    pub fn message_text(&self) -> (r: &String)
        ensures
            r@ == self.message(),
    {
        &self.message
    }
}

/// The level at which a record of a query is reported.
#[derive(Debug, Clone, Copy, PartialEq, Eq, Structural)]
pub enum LogLevel {
    Debug,
    Info,
    Warn,
    Error,
}

/// A field that an event about a query carries besides its message.
#[derive(Debug, PartialEq, Eq)]
pub enum LogField {
    /// The model's name.
    ModelName,
    /// The query id.
    QueryId,
    /// A query text.
    Query(String),
    /// The query's arguments.
    Arguments,
    /// The time the query took to run.
    ExecutionTime,
}

/// What a field of an event denotes.
pub enum LogFieldView {
    ModelName,
    QueryId,
    Query(Seq<char>),
    Arguments,
    ExecutionTime,
}

impl View for LogField {
    type V = LogFieldView;

    open spec fn view(&self) -> LogFieldView {
        match self {
            LogField::ModelName => LogFieldView::ModelName,
            LogField::QueryId => LogFieldView::QueryId,
            LogField::Query(q) => LogFieldView::Query(q@),
            LogField::Arguments => LogFieldView::Arguments,
            LogField::ExecutionTime => LogFieldView::ExecutionTime,
        }
    }
}

/// A record that a hook made about a query: a level, a message, and the fields
/// that the event carries, in order.
pub struct LogRecord {
    pub level: LogLevel,
    pub message: String,
    pub fields: Vec<LogField>,
}

/// What a record denotes: its level, the text of its message and its fields.
pub open spec fn record_view(r: LogRecord) -> (LogLevel, Seq<char>, Seq<LogFieldView>) {
    (r.level, r.message@, r.fields@.map_values(|f: LogField| f@))
}

/// The fields of an error recorded about a query whose text is `query`: the
/// query id, the query text and the arguments.
pub open spec fn error_fields(query: Seq<char>) -> Seq<LogFieldView> {
    seq![LogFieldView::QueryId, LogFieldView::Query(query), LogFieldView::Arguments]
}

/// The context of a query run for a model: what was run, when it started, how
/// it ended, the records that hooks made about it and the actions for which
/// they reported metrics, each in the order they were made.
pub struct QueryContext {
    model_name: String,
    query_id: u128,
    start_time: i64,
    query: String,
    arguments: Vec<String>,
    rows_affected: Option<u64>,
    success: bool,
    records: Vec<LogRecord>,
    metrics: Vec<String>,
}

/// What a query context denotes.
pub struct QueryContextView {
    pub model_name: Seq<char>,
    pub query_id: u128,
    pub start_time: i64,
    pub query: Seq<char>,
    pub arguments: Seq<Seq<char>>,
    pub rows_affected: Option<u64>,
    pub success: bool,
    pub records: Seq<(LogLevel, Seq<char>, Seq<LogFieldView>)>,
    pub metrics: Seq<Seq<char>>,
}

impl View for QueryContext {
    type V = QueryContextView;

    closed spec fn view(&self) -> QueryContextView {
        QueryContextView {
            model_name: self.model_name@,
            query_id: self.query_id,
            start_time: self.start_time,
            query: self.query@,
            arguments: self.arguments@.map_values(|a: String| a@),
            rows_affected: self.rows_affected,
            success: self.success,
            records: self.records@.map_values(|r: LogRecord| record_view(r)),
            metrics: self.metrics@.map_values(|m: String| m@),
        }
    }
}

impl QueryContextView {
    /// The same context with one more record.
    pub open spec fn with_record(
        self,
        level: LogLevel,
        message: Seq<char>,
        fields: Seq<LogFieldView>,
    ) -> QueryContextView {
        QueryContextView { records: self.records.push((level, message, fields)), ..self }
    }

    /// The same context with metrics reported for one more action.
    pub open spec fn with_metrics(self, action: Seq<char>) -> QueryContextView {
        QueryContextView { metrics: self.metrics.push(action), ..self }
    }
}

/// Joins texts with a separator between each two of them.
pub open spec fn joined(parts: Seq<Seq<char>>, sep: Seq<char>) -> Seq<char>
    decreases parts.len(),
{
    if parts.len() == 0 {
        Seq::empty()
    } else if parts.len() == 1 {
        parts[0]
    } else {
        joined(parts.drop_last(), sep) + sep + parts.last()
    }
}

impl QueryContext {
    /// Creates the context of a query for the model `model_name`, with a fresh
    /// random query id, started now, with no query text, no arguments, no
    /// result, no record and no metrics yet.
    pub fn new(model_name: &str) -> (r: QueryContext)
        ensures
            r@.model_name == model_name@,
            uuid_version(r@.query_id) == 4,
            uuid_variant(r@.query_id) == 2,
            r@.query == Seq::<char>::empty(),
            r@.arguments == Seq::<Seq<char>>::empty(),
            r@.rows_affected is None,
            !r@.success,
            r@.records == Seq::<(LogLevel, Seq<char>, Seq<LogFieldView>)>::empty(),
            r@.metrics == Seq::<Seq<char>>::empty(),
            r@.start_time >= 0,
    {
        let r = QueryContext {
            model_name: model_name.to_owned(),
            query_id: new_v4_uuid(),
            start_time: now_micros(),
            query: String::new(),
            arguments: Vec::new(),
            rows_affected: None,
            success: false,
            records: Vec::new(),
            metrics: Vec::new(),
        };
        assert(r@.arguments =~= Seq::<Seq<char>>::empty());
        assert(r@.records =~= Seq::<(LogLevel, Seq<char>, Seq<LogFieldView>)>::empty());
        assert(r@.metrics =~= Seq::<Seq<char>>::empty());
        r
    }

    /// The model's name.
    pub fn model_name(&self) -> (r: &String)
        ensures
            r@ == self@.model_name,
    {
        &self.model_name
    }

    /// The query id.
    pub fn query_id(&self) -> (r: u128)
        ensures
            r == self@.query_id,
    {
        self.query_id
    }

    /// The query text.
    pub fn query(&self) -> (r: &String)
        ensures
            r@ == self@.query,
    {
        &self.query
    }

    /// The number of rows that the query affected or fetched, once recorded.
    pub fn rows_affected(&self) -> (r: Option<u64>)
        ensures
            r == self@.rows_affected,
    {
        self.rows_affected
    }

    /// Returns `true` if the query succeeded.
    pub fn is_success(&self) -> (r: bool)
        ensures
            r == self@.success,
    {
        self.success
    }

    /// When the query started, in microseconds since the Unix epoch.
    pub fn start_time(&self) -> (r: i64)
        ensures
            r == self@.start_time,
    {
        self.start_time
    }

    /// The actions for which metrics were reported, in order.
    pub fn metrics(&self) -> (r: &Vec<String>)
        ensures
            r@.map_values(|m: String| m@) == self@.metrics,
    {
        &self.metrics
    }

    /// Reports metrics of the query for an action.
    pub fn emit_metrics(&mut self, action: &str)
        ensures
            final(self)@ == old(self)@.with_metrics(action@),
    {
        let ghost before = self.metrics@;
        self.metrics.push(action.to_owned());
        assert(self.metrics@.map_values(|m: String| m@) =~= before.map_values(|m: String| m@).push(action@));
    }

    /// The records made about the query, in order.
    pub fn records(&self) -> (r: &Vec<LogRecord>)
        ensures
            r@.map_values(|x: LogRecord| record_view(x)) == self@.records,
    {
        &self.records
    }

    /// Sets the query text.
    pub fn set_query(&mut self, query: String)
        ensures
            final(self)@ == (QueryContextView { query: query@, ..old(self)@ }),
    {
        self.query = query;
    }

    /// Adds an argument of the query.
    pub fn add_argument(&mut self, argument: String)
        ensures
            final(self)@ == (QueryContextView {
                arguments: old(self)@.arguments.push(argument@),
                ..old(self)@
            }),
    {
        let ghost before = self.arguments@;
        self.arguments.push(argument);
        assert(self.arguments@.map_values(|a: String| a@) =~= before.map_values(|a: String| a@).push(
            self.arguments@.last()@,
        ));
    }

    /// Records how the query ended: the rows it affected or fetched, and whether it succeeded.
    pub fn set_query_result(&mut self, rows_affected: Option<u64>, success: bool)
        ensures
            final(self)@ == (QueryContextView { rows_affected, success, ..old(self)@ }),
    {
        self.rows_affected = rows_affected;
        self.success = success;
    }

    /// The arguments of the query, separated by a comma and a space.
    pub fn format_arguments(&self) -> (r: String)
        ensures
            r@ == joined(self@.arguments, ", "@),
    {
        let ghost parts = self@.arguments;
        let mut r = String::new();
        let n = self.arguments.len();
        let mut i: usize = 0;
        while i < n
            invariant
                n == self.arguments@.len(),
                parts == self.arguments@.map_values(|a: String| a@),
                i <= n,
                r@ == joined(parts.take(i as int), ", "@),
            decreases n - i,
        {
            assert(parts.take(i + 1).drop_last() =~= parts.take(i as int));
            if i > 0 {
                r.append(", ");
            }
            r.append(self.arguments[i].as_str());
            i = i + 1;
        }
        assert(parts.take(n as int) =~= parts);
        r
    }

    /// Records an error message about the query, with the query id, the query
    /// text and the arguments.
    pub fn record_error(&mut self, message: &str)
        ensures
            final(self)@ == old(self)@.with_record(LogLevel::Error, message@, error_fields(old(self)@.query)),
    {
        let mut fields: Vec<LogField> = Vec::new();
        fields.push(LogField::QueryId);
        fields.push(LogField::Query(self.query.clone()));
        fields.push(LogField::Arguments);
        assert(fields@.map_values(|f: LogField| f@) =~= error_fields(self@.query));
        self.record(LogLevel::Error, message.to_owned(), fields);
    }

    /// Adds a record about the query.
    pub fn record(&mut self, level: LogLevel, message: String, fields: Vec<LogField>)
        ensures
            final(self)@ == old(self)@.with_record(level, message@, fields@.map_values(|f: LogField| f@)),
    {
        let ghost before = self.records@;
        self.records.push(LogRecord { level, message, fields });
        assert(self.records@.map_values(|x: LogRecord| record_view(x)) =~= before.map_values(
            |x: LogRecord| record_view(x),
        ).push(record_view(self.records@.last())));
    }
}

/// A model: a type whose values are read from JSON objects and stored in a table.
pub trait Model: Sized {
    /// The model's name.
    spec fn spec_model_name() -> Seq<char>;

    /// The model's name.
    fn model_name() -> (name: &'static str)
        ensures
            name@ == Self::spec_model_name(),
    ;

    /// Creates a new model value.
    fn new() -> Self;

    /// Reads the model's fields from a JSON object and reports what failed.
    fn read_map(&mut self, data: JsonMap) -> Validation;
}

} // verus!
