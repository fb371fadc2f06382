//! JSON values and JSON objects (string-keyed maps of values).
use vstd::prelude::*;
use vstd::string::StrSliceExecFns;

verus! {

/// A JSON value.
///
/// Scalars are held as they are; a number is held as its decimal text, so that
/// integers and non-integers alike keep their exact written form. Arrays and
/// objects nested inside a value are held as their JSON text: nothing in this
/// library looks inside them.
#[derive(Debug, Clone)]
pub enum JsonValue {
    Null,
    Bool(bool),
    Number(String),
    Text(String),
    Array(String),
    Object(String),
}

/// What a JSON value denotes, with each string taken by its text.
pub enum JsonValueView {
    Null,
    Bool(bool),
    Number(Seq<char>),
    Text(Seq<char>),
    Array(Seq<char>),
    Object(Seq<char>),
}

impl View for JsonValue {
    type V = JsonValueView;

    open spec fn view(&self) -> JsonValueView {
        match self {
            JsonValue::Null => JsonValueView::Null,
            JsonValue::Bool(b) => JsonValueView::Bool(*b),
            JsonValue::Number(s) => JsonValueView::Number(s@),
            JsonValue::Text(s) => JsonValueView::Text(s@),
            JsonValue::Array(s) => JsonValueView::Array(s@),
            JsonValue::Object(s) => JsonValueView::Object(s@),
        }
    }
}

impl JsonValue {
    /// Returns a copy of the value that is equal to it.
    pub fn duplicate(&self) -> (r: JsonValue)
        ensures
            r == *self,
    {
        match self {
            JsonValue::Null => JsonValue::Null,
            JsonValue::Bool(b) => JsonValue::Bool(*b),
            JsonValue::Number(s) => JsonValue::Number(s.clone()),
            JsonValue::Text(s) => JsonValue::Text(s.clone()),
            JsonValue::Array(s) => JsonValue::Array(s.clone()),
            JsonValue::Object(s) => JsonValue::Object(s.clone()),
        }
    }

    /// Returns the string if the value is a JSON string.
    pub fn as_text(&self) -> (r: Option<&String>)
        ensures
            (self is Text) <==> (r is Some),
            r matches Some(s) ==> self@ == JsonValueView::Text(s@),
    {
        match self {
            JsonValue::Text(s) => Some(s),
            _ => None,
        }
    }
}

/// The map that a sequence of entries denotes: each key, taken by its text,
/// maps to the value of the entry that holds it.
pub open spec fn entries_map(entries: Seq<(String, JsonValue)>) -> Map<Seq<char>, JsonValueView> {
    Map::new(
        |k: Seq<char>| exists|i: int| 0 <= i < entries.len() && #[trigger] entries[i].0@ == k,
        |k: Seq<char>|
            entries[choose|i: int| 0 <= i < entries.len() && #[trigger] entries[i].0@ == k].1@,
    )
}

/// No two entries share a key.
pub open spec fn keys_distinct(entries: Seq<(String, JsonValue)>) -> bool {
    forall|i: int, j: int|
        0 <= i < entries.len() && 0 <= j < entries.len() && i != j ==> #[trigger] entries[i].0@
            != #[trigger] entries[j].0@
}

/// The value held under `k` is that of the entry at `i`, for the entry that has key `k`.
pub proof fn lemma_entries_map_at(entries: Seq<(String, JsonValue)>, i: int)
    requires
        keys_distinct(entries),
        0 <= i < entries.len(),
    ensures
        entries_map(entries).contains_key(entries[i].0@),
        entries_map(entries)[entries[i].0@] == entries[i].1@,
{
    let k = entries[i].0@;
    assert(entries[i].0@ == k);
    let j = choose|j: int| 0 <= j < entries.len() && #[trigger] entries[j].0@ == k;
    assert(j == i);
}

/// Appending an entry with a fresh key inserts it into the denoted map.
pub proof fn lemma_entries_map_push(entries: Seq<(String, JsonValue)>, e: (String, JsonValue))
    requires
        keys_distinct(entries),
        !entries_map(entries).contains_key(e.0@),
    ensures
        keys_distinct(entries.push(e)),
        entries_map(entries.push(e)) == entries_map(entries).insert(e.0@, e.1@),
{
    let s = entries.push(e);
    assert forall|i: int, j: int|
        0 <= i < s.len() && 0 <= j < s.len() && i != j implies #[trigger] s[i].0@ != #[trigger] s[j].0@ by {
        if i == entries.len() as int {
            assert(entries[j].0@ == s[j].0@);
        } else if j == entries.len() as int {
            assert(entries[i].0@ == s[i].0@);
        }
    }
    assert forall|k: Seq<char>| #[trigger] entries_map(s).contains_key(k) == entries_map(
        entries,
    ).insert(e.0@, e.1@).contains_key(k) by {
        if entries_map(entries).contains_key(k) {
            let i = choose|i: int| 0 <= i < entries.len() && #[trigger] entries[i].0@ == k;
            assert(s[i].0@ == k);
        }
        if k == e.0@ {
            assert(s[entries.len() as int].0@ == k);
        }
    }
    assert forall|k: Seq<char>| #[trigger] entries_map(s).contains_key(k) implies entries_map(s)[k]
        == entries_map(entries).insert(e.0@, e.1@)[k] by {
        let i = choose|i: int| 0 <= i < s.len() && #[trigger] s[i].0@ == k;
        lemma_entries_map_at(s, i);
        if i < entries.len() {
            lemma_entries_map_at(entries, i);
        }
    }
    assert(entries_map(s) =~= entries_map(entries).insert(e.0@, e.1@));
}

/// Replacing the entry at `i` by one with the same key updates the value under that key.
pub proof fn lemma_entries_map_update(
    entries: Seq<(String, JsonValue)>,
    i: int,
    e: (String, JsonValue),
)
    requires
        keys_distinct(entries),
        0 <= i < entries.len(),
        entries[i].0@ == e.0@,
    ensures
        keys_distinct(entries.update(i, e)),
        entries_map(entries.update(i, e)) == entries_map(entries).insert(e.0@, e.1@),
{
    let s = entries.update(i, e);
    assert forall|a: int, b: int|
        0 <= a < s.len() && 0 <= b < s.len() && a != b implies #[trigger] s[a].0@ != #[trigger] s[b].0@ by {
        assert(s[a].0@ == entries[a].0@);
        assert(s[b].0@ == entries[b].0@);
    }
    assert forall|k: Seq<char>| #[trigger] entries_map(s).contains_key(k) == entries_map(
        entries,
    ).insert(e.0@, e.1@).contains_key(k) by {
        if entries_map(entries).contains_key(k) {
            let j = choose|j: int| 0 <= j < entries.len() && #[trigger] entries[j].0@ == k;
            assert(s[j].0@ == k);
        }
        if entries_map(s).contains_key(k) {
            let j = choose|j: int| 0 <= j < s.len() && #[trigger] s[j].0@ == k;
            assert(entries[j].0@ == k);
        }
        if k == e.0@ {
            assert(s[i].0@ == k);
        }
    }
    assert forall|k: Seq<char>| #[trigger] entries_map(s).contains_key(k) implies entries_map(s)[k]
        == entries_map(entries).insert(e.0@, e.1@)[k] by {
        let j = choose|j: int| 0 <= j < s.len() && #[trigger] s[j].0@ == k;
        lemma_entries_map_at(s, j);
        lemma_entries_map_at(entries, j);
    }
    assert(entries_map(s) =~= entries_map(entries).insert(e.0@, e.1@));
}

/// The keys of a sequence of entries, in order.
pub open spec fn entry_keys(entries: Seq<(String, JsonValue)>) -> Seq<Seq<char>> {
    entries.map_values(|e: (String, JsonValue)| e.0@)
}

/// The order of keys after inserting `key`: a new key goes last, a key already
/// held keeps its place.
pub open spec fn order_after_insert(order: Seq<Seq<char>>, key: Seq<char>) -> Seq<Seq<char>> {
    if order.contains(key) {
        order
    } else {
        order.push(key)
    }
}

/// The order of keys after inserting the keys of `added`, in turn.
pub open spec fn order_after_append(order: Seq<Seq<char>>, added: Seq<Seq<char>>) -> Seq<Seq<char>>
    decreases added.len(),
{
    if added.len() == 0 {
        order
    } else {
        order_after_insert(order_after_append(order, added.drop_last()), added.last())
    }
}

/// An order of keys stays a prefix of the order after more keys are inserted.
pub proof fn lemma_order_after_append_prefix(order: Seq<Seq<char>>, added: Seq<Seq<char>>)
    ensures
        order.is_prefix_of(order_after_append(order, added)),
    decreases added.len(),
{
    if added.len() > 0 {
        lemma_order_after_append_prefix(order, added.drop_last());
        let o = order_after_append(order, added.drop_last());
        assert(o.is_prefix_of(order_after_insert(o, added.last())));
    }
}

/// A key occurs among the keys of entries exactly when the denoted map holds it.
proof fn lemma_entry_keys_contains(entries: Seq<(String, JsonValue)>, k: Seq<char>)
    ensures
        entry_keys(entries).contains(k) <==> entries_map(entries).contains_key(k),
{
    if entry_keys(entries).contains(k) {
        let i = choose|i: int| 0 <= i < entry_keys(entries).len() && entry_keys(entries)[i] == k;
        assert(entries[i].0@ == k);
    }
    if entries_map(entries).contains_key(k) {
        let i = choose|i: int| 0 <= i < entries.len() && #[trigger] entries[i].0@ == k;
        assert(entry_keys(entries)[i] == k);
    }
}

/// A JSON object: string keys, each held once, mapped to JSON values.
/// Entries keep the order in which their keys were first inserted.
pub struct JsonMap {
    entries: Vec<(String, JsonValue)>,
}

impl View for JsonMap {
    type V = Map<Seq<char>, JsonValueView>;

    closed spec fn view(&self) -> Map<Seq<char>, JsonValueView> {
        entries_map(self.entries@)
    }
}

impl JsonMap {
    /// The keys, in the order of their entries.
    pub closed spec fn key_order(&self) -> Seq<Seq<char>> {
        entry_keys(self.entries@)
    }

    #[verifier::type_invariant]
    closed spec fn inv(self) -> bool {
        keys_distinct(self.entries@)
    }

    /// Creates an empty object.
    pub fn new() -> (r: JsonMap)
        ensures
            r@ == Map::<Seq<char>, JsonValueView>::empty(),
            r.key_order() == Seq::<Seq<char>>::empty(),
    {
        let r = JsonMap { entries: Vec::new() };
        assert(r@ =~= Map::<Seq<char>, JsonValueView>::empty());
        assert(r.key_order() =~= Seq::<Seq<char>>::empty());
        r
    }

    /// The number of entries.
    pub fn len(&self) -> (r: usize)
        ensures
            r == self@.len(),
    {
        proof {
            use_type_invariant(self);
            lemma_keys_distinct_len(self.entries@);
        }
        self.entries.len()
    }

    /// The entries, in order: no two share a key, and together they denote the object.
    pub fn entries(&self) -> (r: &Vec<(String, JsonValue)>)
        ensures
            keys_distinct(r@),
            entries_map(r@) == self@,
            entry_keys(r@) == self.key_order(),
    {
        proof {
            use_type_invariant(self);
        }
        &self.entries
    }

    /// Returns `true` if the object has no entries.
    pub fn is_empty(&self) -> (r: bool)
        ensures
            r <==> self@ == Map::<Seq<char>, JsonValueView>::empty(),
    {
        proof {
            use_type_invariant(self);
            if self.entries@.len() > 0 {
                lemma_entries_map_at(self.entries@, 0);
            } else {
                assert(self@ =~= Map::<Seq<char>, JsonValueView>::empty());
            }
        }
        self.entries.len() == 0
    }

    /// The position of the entry with key `key`, if there is one.
    fn find(&self, key: &str) -> (r: Option<usize>)
        ensures
            r matches Some(i) ==> i < self.entries@.len() && self.entries@[i as int].0@ == key@,
            r is None ==> !self@.contains_key(key@),
    {
        let n = self.entries.len();
        let mut i: usize = 0;
        while i < n
            invariant
                n == self.entries@.len(),
                i <= n,
                forall|j: int| 0 <= j < i ==> #[trigger] self.entries@[j].0@ != key@,
            decreases n - i,
        {
            if str_equal(self.entries[i].0.as_str(), key) {
                return Some(i);
            }
            i = i + 1;
        }
        None
    }

    /// Returns `true` if the object has an entry with key `key`.
    pub fn contains_key(&self, key: &str) -> (r: bool)
        ensures
            r == self@.contains_key(key@),
    {
        proof {
            use_type_invariant(self);
        }
        match self.find(key) {
            Some(i) => {
                proof {
                    lemma_entries_map_at(self.entries@, i as int);
                }
                true
            },
            None => false,
        }
    }

    /// The value held under `key`, if any.
    pub fn get(&self, key: &str) -> (r: Option<&JsonValue>)
        ensures
            r matches Some(v) ==> self@.contains_key(key@) && self@[key@] == v@,
            r is None ==> !self@.contains_key(key@),
    {
        proof {
            use_type_invariant(self);
        }
        match self.find(key) {
            Some(i) => {
                proof {
                    lemma_entries_map_at(self.entries@, i as int);
                }
                Some(&self.entries[i].1)
            },
            None => None,
        }
    }

    /// Inserts `value` under `key`, replacing the value held there before.
    /// A new key goes after the existing ones; an existing key keeps its place.
    pub fn upsert(&mut self, key: String, value: JsonValue)
        ensures
            final(self)@ == old(self)@.insert(key@, value@),
            final(self).key_order() == order_after_insert(old(self).key_order(), key@),
    {
        proof {
            use_type_invariant(&*self);
        }
        let found = self.find(key.as_str());
        let mut entries: Vec<(String, JsonValue)> = Vec::new();
        std::mem::swap(&mut entries, &mut self.entries);
        let ghost before = entries@;
        match found {
            Some(i) => {
                proof {
                    lemma_entries_map_update(before, i as int, (key, value));
                }
                let _old = entries.remove(i);
                entries.insert(i, (key, value));
                assert(entries@ =~= before.update(i as int, (key, value)));
                assert(entry_keys(before)[i as int] == key@);
                assert(entry_keys(entries@) =~= entry_keys(before));
            },
            None => {
                proof {
                    lemma_entries_map_push(before, (key, value));
                    lemma_entry_keys_contains(before, key@);
                }
                entries.push((key, value));
                assert(entry_keys(entries@) =~= entry_keys(before).push(key@));
            },
        }
        self.entries = entries;
    }

    /// Moves every entry of `other` into this object, replacing values under
    /// keys that both hold; `other` is left empty.
    pub fn append(&mut self, other: &mut JsonMap)
        ensures
            final(self)@ == old(self)@.union_prefer_right(old(other)@),
            final(self).key_order() == order_after_append(old(self).key_order(), old(other).key_order()),
            final(other)@ == Map::<Seq<char>, JsonValueView>::empty(),
            final(other).key_order() == Seq::<Seq<char>>::empty(),
    {
        proof {
            use_type_invariant(&*other);
        }
        let mut taken: Vec<(String, JsonValue)> = Vec::new();
        std::mem::swap(&mut taken, &mut other.entries);
        assert(other@ =~= Map::<Seq<char>, JsonValueView>::empty());
        assert(other.key_order() =~= Seq::<Seq<char>>::empty());
        let ghost start = self@;
        let ghost start_order = self.key_order();
        let ghost added = entry_keys(taken@);
        let n = taken.len();
        let mut i: usize = 0;
        while i < n
            invariant
                n == taken@.len(),
                i <= n,
                keys_distinct(taken@),
                self@ == start.union_prefer_right(entries_map(taken@.take(i as int))),
                added == entry_keys(taken@),
                self.key_order() == order_after_append(start_order, added.take(i as int)),
            decreases n - i,
        {
            let key = taken[i].0.clone();
            let value = taken[i].1.duplicate();
            proof {
                lemma_take_push(taken@, i as int);
            }
            self.upsert(key, value);
            assert(self@ =~= start.union_prefer_right(entries_map(taken@.take(i + 1))));
            assert(added.take(i + 1).drop_last() =~= added.take(i as int));
            assert(added.take(i + 1).last() == taken@[i as int].0@);
            i = i + 1;
        }
        assert(taken@.take(n as int) =~= taken@);
        assert(added.take(n as int) =~= added);
    }
}

/// Adding the next entry of a sequence with distinct keys to a prefix inserts it.
proof fn lemma_take_push(s: Seq<(String, JsonValue)>, i: int)
    requires
        keys_distinct(s),
        0 <= i < s.len(),
    ensures
        keys_distinct(s.take(i)),
        entries_map(s.take(i + 1)) == entries_map(s.take(i)).insert(s[i].0@, s[i].1@),
{
    let p = s.take(i);
    assert forall|a: int, b: int|
        0 <= a < p.len() && 0 <= b < p.len() && a != b implies #[trigger] p[a].0@ != #[trigger] p[b].0@ by {
        assert(p[a] == s[a]);
        assert(p[b] == s[b]);
    }
    if entries_map(p).contains_key(s[i].0@) {
        let j = choose|j: int| 0 <= j < p.len() && #[trigger] p[j].0@ == s[i].0@;
        assert(s[j].0@ == s[i].0@);
    }
    lemma_entries_map_push(p, s[i]);
    assert(s.take(i + 1) =~= p.push(s[i]));
}

/// A sequence of entries with distinct keys denotes a map with as many keys as entries.
proof fn lemma_keys_distinct_len(s: Seq<(String, JsonValue)>)
    requires
        keys_distinct(s),
    ensures
        entries_map(s).dom().finite(),
        entries_map(s).len() == s.len(),
    decreases s.len(),
{
    if s.len() == 0 {
        assert(entries_map(s).dom() =~= Set::<Seq<char>>::empty());
    } else {
        let p = s.drop_last();
        assert forall|a: int, b: int|
            0 <= a < p.len() && 0 <= b < p.len() && a != b implies #[trigger] p[a].0@ != #[trigger] p[b].0@ by {
            assert(p[a] == s[a]);
            assert(p[b] == s[b]);
        }
        lemma_keys_distinct_len(p);
        let last = s[s.len() - 1];
        if entries_map(p).contains_key(last.0@) {
            let j = choose|j: int| 0 <= j < p.len() && #[trigger] p[j].0@ == last.0@;
            assert(s[j].0@ == last.0@);
        }
        lemma_entries_map_push(p, last);
        assert(p.push(last) =~= s);
    }
}

/// Compares two strings by their text.
pub(crate) fn str_equal(a: &str, b: &str) -> (r: bool)
    ensures
        r == (a@ == b@),
{
    let n = a.unicode_len();
    if n != b.unicode_len() {
        return false;
    }
    let mut i: usize = 0;
    while i < n
        invariant
            n == a@.len(),
            n == b@.len(),
            i <= n,
            forall|j: int| 0 <= j < i ==> a@[j] == b@[j],
        decreases n - i,
    {
        if a.get_char(i) != b.get_char(i) {
            return false;
        }
        i = i + 1;
    }
    assert(a@ =~= b@);
    true
}

} // verus!
