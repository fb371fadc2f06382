//! Validation of model data: the entries that failed, and parsers for JSON values.
use vstd::prelude::*;
use crate::json::{order_after_insert, JsonMap, JsonValue, JsonValueView};
use crate::identifier::{parse_uuid_text, uuid_parse};

verus! {

/// The record of a validation: each key that failed, with its message.
pub struct Validation {
    failed_entries: JsonMap,
}

impl View for Validation {
    type V = Map<Seq<char>, JsonValueView>;

    /// The failed keys, each mapped to its message.
    closed spec fn view(&self) -> Map<Seq<char>, JsonValueView> {
        self.failed_entries@
    }
}

/// What `Validation::parse_string` gives for an optional JSON value.
pub open spec fn parsed_string(value: Option<JsonValueView>) -> Option<Seq<char>> {
    match value {
        Some(JsonValueView::Text(s)) => Some(s),
        _ => None,
    }
}

/// What `Validation::parse_uuid` gives for an optional JSON value.
pub open spec fn parsed_uuid(value: Option<JsonValueView>) -> Option<Result<u128, Seq<char>>> {
    match value {
        Some(JsonValueView::Text(s)) => Some(uuid_parse(s)),
        _ => None,
    }
}

/// The view of an optional reference to a JSON value.
pub open spec fn opt_view(value: Option<&JsonValue>) -> Option<JsonValueView> {
    match value {
        Some(v) => Some(v@),
        None => None,
    }
}

/// The view of a parse result whose error is a message.
pub open spec fn parse_result_view(r: Option<Result<u128, String>>) -> Option<Result<u128, Seq<char>>> {
    match r {
        Some(Ok(id)) => Some(Ok(id)),
        Some(Err(e)) => Some(Err(e@)),
        None => None,
    }
}

impl Validation {
    /// The failed keys, in the order in which they first failed.
    pub closed spec fn failed_order(&self) -> Seq<Seq<char>> {
        self.failed_entries.key_order()
    }

    /// Creates a validation with no failure.
    pub fn new() -> (r: Validation)
        ensures
            r@ == Map::<Seq<char>, JsonValueView>::empty(),
            r.failed_order() == Seq::<Seq<char>>::empty(),
    {
        Validation { failed_entries: JsonMap::new() }
    }

    /// Records that `key` failed with `message`; a later failure of the same key
    /// replaces the earlier message.
    pub fn record_fail(&mut self, key: String, message: String)
        ensures
            final(self)@ == old(self)@.insert(key@, JsonValueView::Text(message@)),
            final(self).failed_order() == order_after_insert(old(self).failed_order(), key@),
    {
        self.failed_entries.upsert(key, JsonValue::Text(message));
    }

    /// Returns `true` if nothing failed.
    pub fn is_success(&self) -> (r: bool)
        ensures
            r <==> self@ == Map::<Seq<char>, JsonValueView>::empty(),
    {
        self.failed_entries.is_empty()
    }

    /// The failed entries.
    pub fn failed_entries(&self) -> (r: &JsonMap)
        ensures
            r@ == self@,
            r.key_order() == self.failed_order(),
    {
        &self.failed_entries
    }

    /// Parses a JSON value as a string: the text of a JSON string, and nothing
    /// for a missing value or a value of another kind.
    pub fn parse_string(value: Option<&JsonValue>) -> (r: Option<String>)
        ensures
            r matches Some(s) ==> parsed_string(opt_view(value)) == Some(s@),
            r is None ==> parsed_string(opt_view(value)) is None,
    {
        match value {
            Some(v) => match v.as_text() {
                Some(s) => Some(s.clone()),
                None => None,
            },
            None => None,
        }
    }

    /// Parses a JSON value as a UUID: nothing for a missing value or one that is
    /// not a JSON string; for a string, the UUID it spells or the parse error.
    pub fn parse_uuid(value: Option<&JsonValue>) -> (r: Option<Result<u128, String>>)
        ensures
            parse_result_view(r) == parsed_uuid(opt_view(value)),
    {
        match value {
            Some(v) => match v.as_text() {
                Some(s) => Some(parse_uuid_text(s.as_str())),
                None => None,
            },
            None => None,
        }
    }
}

} // verus!
