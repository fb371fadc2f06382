//! Queries and mutations run against a model's table.
use vstd::prelude::*;
use crate::json::{JsonMap, JsonValueView};

verus! {

/// A query: the fields to select, the filters on rows, and the window of rows.
pub struct Query {
    fields: Vec<String>,
    filters: JsonMap,
    offset: usize,
    limit: usize,
}

/// A mutation: the fields to update and their new values.
pub struct Mutation {
    fields: Vec<String>,
    updates: JsonMap,
}

impl Query {
    /// Creates a query that selects all fields of the rows matching `filters`,
    /// from the first row on, with no limit on the number of rows.
    pub fn new(filters: JsonMap) -> (r: Query)
        ensures
            r.fields() == Seq::<Seq<char>>::empty(),
            r.filters() == filters@,
            r.offset() == 0,
            r.limit() == usize::MAX,
    {
        let r = Query { fields: Vec::new(), filters, offset: 0, limit: usize::MAX };
        assert(r.fields() =~= Seq::<Seq<char>>::empty());
        r
    }

    /// The fields to select; none means all.
    pub closed spec fn fields(&self) -> Seq<Seq<char>> {
        self.fields@.map_values(|f: String| f@)
    }

    /// The filters on rows.
    pub closed spec fn filters(&self) -> Map<Seq<char>, JsonValueView> {
        self.filters@
    }

    /// The number of rows to skip.
    pub closed spec fn offset(&self) -> usize {
        self.offset
    }

    /// The largest number of rows to return.
    pub closed spec fn limit(&self) -> usize {
        self.limit
    }
}

impl Mutation {
    /// Creates a mutation that sets the values in `updates`.
    pub fn new(updates: JsonMap) -> (r: Mutation)
        ensures
            r.fields() == Seq::<Seq<char>>::empty(),
            r.updates() == updates@,
    {
        let r = Mutation { fields: Vec::new(), updates };
        assert(r.fields() =~= Seq::<Seq<char>>::empty());
        r
    }

    /// The fields that may be updated; none means all.
    pub closed spec fn fields(&self) -> Seq<Seq<char>> {
        self.fields@.map_values(|f: String| f@)
    }

    /// The new values.
    pub closed spec fn updates(&self) -> Map<Seq<char>, JsonValueView> {
        self.updates@
    }
}

} // verus!
