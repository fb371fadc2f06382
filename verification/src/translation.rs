//! Translations of model fields: each maps the text of a field's value to the
//! text that stands for it, and a table of them, keyed by `model.field`.
use vstd::prelude::*;
use vstd::string::{StrSliceExecFns, StringExecFns};
use ::convert_case::{Case, Casing};
use crate::json::{lemma_order_after_append_prefix, str_equal, JsonMap, JsonValue, JsonValueView};

verus! {

/// What a translation denotes: its pairs of a value's text and the text that
/// stands for it, in order.
pub type TranslationView = Seq<(Seq<char>, Seq<char>)>;

/// A translation for a model field.
#[derive(Debug, Clone)]
pub struct Translation {
    translations: Vec<(String, String)>,
}

/// The text that stands for `key` in the first pair that has it.
pub open spec fn lookup(pairs: TranslationView, key: Seq<char>) -> Option<Seq<char>>
    decreases pairs.len(),
{
    if pairs.len() == 0 {
        None
    } else if pairs[0].0 == key {
        Some(pairs[0].1)
    } else {
        lookup(pairs.drop_first(), key)
    }
}

/// The text by which a JSON value is translated: that of a string, a number or
/// a boolean; other values have none.
pub open spec fn value_key(v: JsonValueView) -> Option<Seq<char>> {
    match v {
        JsonValueView::Text(s) => Some(s),
        JsonValueView::Number(s) => Some(s),
        JsonValueView::Bool(b) => Some(if b { "true"@ } else { "false"@ }),
        _ => None,
    }
}

/// What a translation gives for a value: the string that stands for the value's text.
pub open spec fn translated(t: TranslationView, v: JsonValueView) -> Option<JsonValueView> {
    match value_key(v) {
        Some(k) => match lookup(t, k) {
            Some(s) => Some(JsonValueView::Text(s)),
            None => None,
        },
        None => None,
    }
}

/// The pairs that a configuration table gives: its entries whose value is a string.
pub open spec fn config_pairs(config: Seq<(Seq<char>, Option<Seq<char>>)>) -> TranslationView
    decreases config.len(),
{
    if config.len() == 0 {
        Seq::empty()
    } else {
        let rest = config_pairs(config.drop_last());
        match config.last().1 {
            Some(v) => rest.push((config.last().0, v)),
            None => rest,
        }
    }
}

/// The view of a configuration table whose entries map a key to a string or to another value.
pub open spec fn config_view(config: Seq<(String, Option<String>)>) -> Seq<(Seq<char>, Option<Seq<char>>)> {
    config.map_values(|e: (String, Option<String>)| (e.0@, match e.1 {
        Some(s) => Some(s@),
        None => None,
    }))
}

impl View for Translation {
    type V = TranslationView;

    closed spec fn view(&self) -> TranslationView {
        self.translations@.map_values(|p: (String, String)| (p.0@, p.1@))
    }
}

impl Translation {
    /// Creates a translation with no pair.
    pub fn new() -> (r: Translation)
        ensures
            r@ == Seq::<(Seq<char>, Seq<char>)>::empty(),
    {
        let r = Translation { translations: Vec::new() };
        assert(r@ =~= Seq::<(Seq<char>, Seq<char>)>::empty());
        r
    }

    /// Builds a translation out of a configuration table: each entry whose value
    /// is a string gives a pair, in the table's order; other entries are skipped.
    pub fn with_config(config: &Vec<(String, Option<String>)>) -> (r: Translation)
        ensures
            r@ == config_pairs(config_view(config@)),
    {
        let ghost cv = config_view(config@);
        let mut translations: Vec<(String, String)> = Vec::new();
        let n = config.len();
        let mut i: usize = 0;
        while i < n
            invariant
                n == config@.len(),
                cv == config_view(config@),
                i <= n,
                translations@.map_values(|p: (String, String)| (p.0@, p.1@)) == config_pairs(
                    cv.take(i as int),
                ),
            decreases n - i,
        {
            assert(cv.take(i + 1).drop_last() =~= cv.take(i as int));
            let ghost before = translations@;
            match &config[i].1 {
                Some(v) => {
                    translations.push((config[i].0.clone(), v.clone()));
                    assert(translations@.map_values(|p: (String, String)| (p.0@, p.1@)) =~= before.map_values(
                        |p: (String, String)| (p.0@, p.1@),
                    ).push((config@[i as int].0@, v@)));
                },
                None => {},
            }
            i = i + 1;
        }
        assert(cv.take(n as int) =~= cv);
        Translation { translations }
    }

    /// Returns `true` if the translation has a pair.
    pub fn is_ready(&self) -> (r: bool)
        ensures
            r <==> self@.len() > 0,
    {
        self.translations.len() > 0
    }

    /// Translates a value: the string that stands for the text of a string, a
    /// number or a boolean, in the first pair that has that text; nothing if no
    /// pair has it, or for other values.
    pub fn translate(&self, value: &JsonValue) -> (r: Option<JsonValue>)
        ensures
            opt_value_view(r) == translated(self@, value@),
    {
        let key: String = match value {
            JsonValue::Text(s) => s.clone(),
            JsonValue::Number(s) => s.clone(),
            JsonValue::Bool(b) => if *b {
                "true".to_owned()
            } else {
                "false".to_owned()
            },
            _ => {
                return None;
            },
        };
        let ghost pairs = self@;
        assert(value_key(value@) == Some(key@));
        assert(pairs.skip(0) =~= pairs);
        let n = self.translations.len();
        let mut i: usize = 0;
        while i < n
            invariant
                n == self.translations@.len(),
                pairs == self@,
                value_key(value@) == Some(key@),
                i <= n,
                lookup(pairs, key@) == lookup(pairs.skip(i as int), key@),
            decreases n - i,
        {
            assert(pairs.skip(i as int)[0] == pairs[i as int]);
            assert(pairs[i as int] == (self.translations@[i as int].0@, self.translations@[i as int].1@));
            if self.translations[i].0 == key {
                assert(pairs.skip(i as int).len() > 0);
                assert(lookup(pairs.skip(i as int), key@) == Some(pairs[i as int].1));
                return Some(JsonValue::Text(self.translations[i].1.clone()));
            }
            assert(pairs.skip(i as int).drop_first() =~= pairs.skip(i + 1));
            i = i + 1;
        }
        None
    }
}

/// The view of an optional JSON value.
pub open spec fn opt_value_view(v: Option<JsonValue>) -> Option<JsonValueView> {
    match v {
        Some(x) => Some(x@),
        None => None,
    }
}

/// The random state of `ahash`, which seeds the hasher of its hash maps.
#[verifier::external_type_specification]
#[verifier::external_body]
pub struct ExRandomState(::ahash::RandomState);

/// What a hash map of translations holds: each key, by its text, mapped to its translation.
pub uninterp spec fn hash_map_contents(map: ::ahash::HashMap<String, Translation>) -> Map<Seq<char>, TranslationView>;

/// What a translation table denotes: each key, by its text, mapped to its translation.
pub type TableView = Map<Seq<char>, TranslationView>;

/// No two entries share a key.
pub open spec fn table_keys_distinct(entries: Seq<(String, Translation)>) -> bool {
    forall|i: int, j: int|
        0 <= i < entries.len() && 0 <= j < entries.len() && i != j ==> #[trigger] entries[i].0@
            != #[trigger] entries[j].0@
}

/// Creates an empty map with `ahash::HashMapExt::new`.
///
/// Trusted: the new map is claimed to hold nothing. Seeding its hasher panics
/// when the operating system's random source fails.
#[verifier::external_body]
fn hash_map_new() -> (r: ::ahash::HashMap<String, Translation>)
    ensures
        hash_map_contents(r) == TableView::empty(),
{
    <::ahash::HashMap<String, Translation> as ::ahash::HashMapExt>::new()
}

/// Inserts a translation under a key with `HashMap::insert`, replacing the
/// translation held there before.
///
/// Trusted: the map is claimed to hold, afterwards, what it held before with
/// `key` mapped to `translation`.
#[verifier::external_body]
fn hash_map_insert(map: &mut ::ahash::HashMap<String, Translation>, key: String, translation: Translation)
    ensures
        hash_map_contents(*final(map)) == hash_map_contents(*old(map)).insert(key@, translation@),
{
    map.insert(key, translation);
}

/// Copies out the entries with `HashMap::iter`, in the map's iteration order.
///
/// Trusted: each key is claimed to come out once, with a copy of its
/// translation (`Clone` as derived copies each pair), and every key to come
/// out. The order, which the hasher's random seed decides, is left open.
#[verifier::external_body]
fn hash_map_entries(map: &::ahash::HashMap<String, Translation>) -> (r: Vec<(String, Translation)>)
    ensures
        table_keys_distinct(r@),
        forall|i: int|
            0 <= i < r@.len() ==> hash_map_contents(*map).contains_key(#[trigger] r@[i].0@)
                && hash_map_contents(*map)[r@[i].0@] == r@[i].1@,
        forall|k: Seq<char>|
            #[trigger] hash_map_contents(*map).contains_key(k) ==> exists|i: int|
                0 <= i < r@.len() && #[trigger] r@[i].0@ == k,
{
    let mut r = Vec::new();
    for (key, translation) in map.iter() {
        r.push((key.clone(), translation.clone()));
    }
    r
}

/// The translations of model fields, keyed by `model.field`.
pub struct TranslationTable {
    map: ::ahash::HashMap<String, Translation>,
}

/// What a translation table holds.
pub closed spec fn table_contents(table: TranslationTable) -> TableView {
    hash_map_contents(table.map)
}

impl TranslationTable {
    /// Creates an empty table.
    pub fn new() -> (r: TranslationTable)
        ensures
            table_contents(r) == TableView::empty(),
    {
        TranslationTable { map: hash_map_new() }
    }

    /// Inserts a translation under a key, replacing the translation held there before.
    pub fn insert(&mut self, key: String, translation: Translation)
        ensures
            table_contents(*final(self)) == table_contents(*old(self)).insert(key@, translation@),
    {
        hash_map_insert(&mut self.map, key, translation);
    }

    /// The entries, each key once, in an order that is left open.
    pub fn entries(&self) -> (r: Vec<(String, Translation)>)
        ensures
            table_keys_distinct(r@),
            forall|i: int|
                0 <= i < r@.len() ==> table_contents(*self).contains_key(#[trigger] r@[i].0@)
                    && table_contents(*self)[r@[i].0@] == r@[i].1@,
            forall|k: Seq<char>|
                #[trigger] table_contents(*self).contains_key(k) ==> exists|i: int|
                    0 <= i < r@.len() && #[trigger] r@[i].0@ == k,
    {
        hash_map_entries(&self.map)
    }
}

/// The key under which the translation of `field` is written.
pub open spec fn translated_key(field: Seq<char>) -> Seq<char> {
    field + "_translated"@
}

/// The value written for a field's value: its translation, or the value itself
/// when the translation gives nothing.
pub open spec fn field_translation(t: TranslationView, v: JsonValueView) -> JsonValueView {
    match translated(t, v) {
        Some(x) => x,
        None => v,
    }
}

/// The field of a table key for the model whose keys start with `prefix`.
pub open spec fn key_field(key: Seq<char>, prefix: Seq<char>) -> Option<Seq<char>> {
    if prefix.is_prefix_of(key) {
        Some(key.skip(prefix.len() as int))
    } else {
        None
    }
}

/// Whether the table gives a translation, for the model whose keys start with
/// `prefix`, of the field `field` that the object holds.
pub open spec fn translates_field(
    table: Map<Seq<char>, TranslationView>,
    prefix: Seq<char>,
    model: Map<Seq<char>, JsonValueView>,
    field: Seq<char>,
) -> bool {
    table.contains_key(prefix + field) && model.contains_key(field)
}

/// The translated entries that the table gives for an object of the model
/// `model_name`: for each key `model_name.field` of the table whose field the
/// object holds, the key `field_translated` mapped to the field's translated value.
pub open spec fn translated_entries(
    table: Map<Seq<char>, TranslationView>,
    model_name: Seq<char>,
    model: Map<Seq<char>, JsonValueView>,
) -> Map<Seq<char>, JsonValueView> {
    let prefix = model_name + "."@;
    Map::new(
        |t: Seq<char>|
            exists|f: Seq<char>| #[trigger] translated_key(f) == t && translates_field(table, prefix, model, f),
        |t: Seq<char>|
            {
                let f = choose|f: Seq<char>|
                    #[trigger] translated_key(f) == t && translates_field(table, prefix, model, f);
                field_translation(table[prefix + f], model[f])
            },
    )
}

/// Distinct fields have distinct translated keys.
pub proof fn lemma_translated_key_injective(f: Seq<char>, g: Seq<char>)
    ensures
        translated_key(f) == translated_key(g) ==> f == g,
{
    if translated_key(f) == translated_key(g) {
        let s = "_translated"@;
        assert((f + s).len() == (g + s).len());
        assert forall|i: int| 0 <= i < f.len() implies f[i] == g[i] by {
            assert((f + s)[i] == f[i]);
            assert((g + s)[i] == g[i]);
        }
        assert(f =~= g);
    }
}

/// The key of a model's field is the model's prefix followed by the field.
proof fn lemma_key_field(key: Seq<char>, prefix: Seq<char>)
    requires
        prefix.is_prefix_of(key),
    ensures
        key == prefix + key.skip(prefix.len() as int),
{
    assert(key =~= prefix + key.skip(prefix.len() as int));
}

/// A key with the prefix is that of exactly one field.
proof fn lemma_prefix_field(prefix: Seq<char>, f: Seq<char>)
    ensures
        prefix.is_prefix_of(prefix + f),
        (prefix + f).skip(prefix.len() as int) == f,
{
    assert((prefix + f).subrange(0, prefix.len() as int) =~= prefix);
    assert((prefix + f).skip(prefix.len() as int) =~= f);
}

/// Adding a key to the table adds at most the one translated entry of its field.
pub proof fn lemma_translated_entries_insert(
    table: Map<Seq<char>, TranslationView>,
    model_name: Seq<char>,
    model: Map<Seq<char>, JsonValueView>,
    key: Seq<char>,
    t: TranslationView,
)
    requires
        !table.contains_key(key),
    ensures
        translated_entries(table.insert(key, t), model_name, model) == match key_field(
            key,
            model_name + "."@,
        ) {
            Some(f) => if model.contains_key(f) {
                translated_entries(table, model_name, model).insert(
                    translated_key(f),
                    field_translation(t, model[f]),
                )
            } else {
                translated_entries(table, model_name, model)
            },
            None => translated_entries(table, model_name, model),
        },
{
    let prefix = model_name + "."@;
    let big = table.insert(key, t);
    let before = translated_entries(table, model_name, model);
    let after = translated_entries(big, model_name, model);
    let expected = match key_field(key, prefix) {
        Some(f) => if model.contains_key(f) {
            before.insert(translated_key(f), field_translation(t, model[f]))
        } else {
            before
        },
        None => before,
    };
    assert forall|tk: Seq<char>| #[trigger] after.contains_key(tk) == expected.contains_key(tk) by {
        if after.contains_key(tk) {
            let f = choose|f: Seq<char>|
                #[trigger] translated_key(f) == tk && translates_field(big, prefix, model, f);
            if prefix + f == key {
                lemma_prefix_field(prefix, f);
            } else {
                assert(translates_field(table, prefix, model, f));
            }
        }
        if before.contains_key(tk) {
            let f = choose|f: Seq<char>|
                #[trigger] translated_key(f) == tk && translates_field(table, prefix, model, f);
            assert(translates_field(big, prefix, model, f));
        }
        if key_field(key, prefix) is Some {
            let f = key.skip(prefix.len() as int);
            lemma_key_field(key, prefix);
            if model.contains_key(f) && tk == translated_key(f) {
                assert(translates_field(big, prefix, model, f));
            }
        }
    }
    assert forall|tk: Seq<char>| #[trigger] after.contains_key(tk) implies after[tk] == expected[tk] by {
        let f = choose|f: Seq<char>|
            #[trigger] translated_key(f) == tk && translates_field(big, prefix, model, f);
        if prefix + f == key {
            lemma_prefix_field(prefix, f);
            assert(key_field(key, prefix) == Some(f));
        } else {
            assert(translates_field(table, prefix, model, f));
            let g = choose|g: Seq<char>|
                #[trigger] translated_key(g) == tk && translates_field(table, prefix, model, g);
            lemma_translated_key_injective(f, g);
            if key_field(key, prefix) is Some {
                let h = key.skip(prefix.len() as int);
                lemma_key_field(key, prefix);
                lemma_translated_key_injective(f, h);
            }
        }
    }
    assert(after =~= expected);
}

/// Removes `prefix` from the start of `key`, when `key` starts with it.
fn strip_prefix(key: &str, prefix: &str) -> (r: Option<String>)
    ensures
        r matches Some(f) ==> key_field(key@, prefix@) == Some(f@),
        r is None ==> key_field(key@, prefix@) is None,
{
    let key_len = key.unicode_len();
    let prefix_len = prefix.unicode_len();
    if prefix_len > key_len {
        return None;
    }
    let head = key.substring_char(0, prefix_len);
    if !str_equal(head, prefix) {
        return None;
    }
    let rest = key.substring_char(prefix_len, key_len);
    Some(rest.to_owned())
}

/// Translates the model data: for each key `model_name.field` of the table
/// whose field the model holds, writes the field's translated value, or the
/// value itself when its translation gives nothing, under `field_translated`.
pub fn translate_model_entry(model: &mut JsonMap, model_name: &str, translations: &TranslationTable)
    ensures
        final(model)@ == old(model)@.union_prefer_right(
            translated_entries(table_contents(*translations), model_name@, old(model)@),
        ),
        old(model).key_order().is_prefix_of(final(model).key_order()),
{
    let mut data = JsonMap::new();
    let mut model_name_prefix = model_name.to_owned();
    model_name_prefix.append(".");
    let entries = translations.entries();
    let ghost contents = table_contents(*translations);
    let ghost mut seen = Map::<Seq<char>, TranslationView>::empty();
    assert(translated_entries(seen, model_name@, model@) =~= Map::<Seq<char>, JsonValueView>::empty());
    let n = entries.len();
    let mut i: usize = 0;
    while i < n
        invariant
            n == entries@.len(),
            i <= n,
            model_name_prefix@ == model_name@ + "."@,
            contents == table_contents(*translations),
            table_keys_distinct(entries@),
            forall|j: int|
                0 <= j < entries@.len() ==> contents.contains_key(#[trigger] entries@[j].0@)
                    && contents[entries@[j].0@] == entries@[j].1@,
            forall|k: Seq<char>| #[trigger]
                seen.contains_key(k) <==> exists|j: int| 0 <= j < i && #[trigger] entries@[j].0@ == k,
            forall|k: Seq<char>| #[trigger] seen.contains_key(k) ==> seen[k] == contents[k],
            data@ == translated_entries(seen, model_name@, model@),
        decreases n - i,
    {
        let key = &entries[i].0;
        let translation = &entries[i].1;
        proof {
            if seen.contains_key(key@) {
                let j = choose|j: int| 0 <= j < i && #[trigger] entries@[j].0@ == key@;
                assert(entries@[j].0@ == entries@[i as int].0@);
            }
            lemma_translated_entries_insert(seen, model_name@, model@, key@, translation@);
        }
        match strip_prefix(key.as_str(), model_name_prefix.as_str()) {
            Some(field) => {
                match model.get(field.as_str()) {
                    Some(value) => {
                        let mut translated_field = field.clone();
                        translated_field.append("_translated");
                        let translated_value = match translation.translate(value) {
                            Some(v) => v,
                            None => value.duplicate(),
                        };
                        data.upsert(translated_field, translated_value);
                    },
                    None => {},
                }
            },
            None => {},
        }
        proof {
            seen = seen.insert(key@, translation@);
            assert forall|k: Seq<char>| #[trigger]
                seen.contains_key(k) <==> exists|j: int| 0 <= j < i + 1 && #[trigger] entries@[j].0@ == k by {
                if seen.contains_key(k) && k != key@ {
                    let j = choose|j: int| 0 <= j < i && #[trigger] entries@[j].0@ == k;
                    assert(0 <= j < i + 1 && entries@[j].0@ == k);
                }
                if k == key@ {
                    assert(entries@[i as int].0@ == k);
                }
            }
        }
        i = i + 1;
    }
    proof {
        assert forall|k: Seq<char>| #[trigger] contents.contains_key(k) implies seen.contains_key(k) by {
            let j = choose|j: int| 0 <= j < entries@.len() && #[trigger] entries@[j].0@ == k;
        }
        assert(seen =~= contents);
    }
    proof {
        lemma_order_after_append_prefix(model.key_order(), data.key_order());
    }
    model.append(&mut data);
}

/// The snake case of a text, as `convert_case` writes it: the words that the
/// crate's default boundaries split the text into, lowercased and joined by `_`.
pub uninterp spec fn snake_case(text: Seq<char>) -> Seq<char>;

/// Converts a text to snake case with `convert_case::Casing::to_case(Case::Snake)`.
///
/// Trusted: the result is claimed to be `snake_case` of the text, a function of
/// the text alone (the crate splits and joins words without any other input).
#[verifier::external_body]
pub(crate) fn to_snake_case(text: &str) -> (r: String)
    ensures
        r@ == snake_case(text@),
{
    text.to_case(Case::Snake)
}

/// The definition of a model field: its name, and its configuration when the
/// field's value is a table, as entries that map a key to a string or to
/// another value.
pub struct FieldDefinition {
    pub name: String,
    pub config: Option<Vec<(String, Option<String>)>>,
}

/// The definition of a model: its name and the definitions of its fields.
pub struct ModelDefinition {
    pub name: String,
    pub fields: Vec<FieldDefinition>,
}

/// What a field definition denotes.
pub struct FieldDefinitionView {
    pub name: Seq<char>,
    pub config: Option<Seq<(Seq<char>, Option<Seq<char>>)>>,
}

/// What a model definition denotes.
pub struct ModelDefinitionView {
    pub name: Seq<char>,
    pub fields: Seq<FieldDefinitionView>,
}

impl View for FieldDefinition {
    type V = FieldDefinitionView;

    open spec fn view(&self) -> FieldDefinitionView {
        FieldDefinitionView {
            name: self.name@,
            config: match self.config {
                Some(c) => Some(config_view(c@)),
                None => None,
            },
        }
    }
}

impl View for ModelDefinition {
    type V = ModelDefinitionView;

    open spec fn view(&self) -> ModelDefinitionView {
        ModelDefinitionView {
            name: self.name@,
            fields: self.fields@.map_values(|f: FieldDefinition| f@),
        }
    }
}

/// The table after adding the fields of one model, whose keys start with
/// `prefix`: each field whose configuration is a table that gives a pair is
/// inserted under `prefix` followed by its name; a later field replaces an
/// earlier one under the same key.
pub open spec fn add_fields(table: TableView, prefix: Seq<char>, fields: Seq<FieldDefinitionView>) -> TableView
    decreases fields.len(),
{
    if fields.len() == 0 {
        table
    } else {
        let t = add_fields(table, prefix, fields.drop_last());
        let f = fields.last();
        match f.config {
            Some(c) => if config_pairs(c).len() > 0 {
                t.insert(prefix + f.name, config_pairs(c))
            } else {
                t
            },
            None => t,
        }
    }
}

/// The translation table that model definitions give, the fields of each model
/// keyed by the snake case of the model's name, a dot and the field's name.
pub open spec fn definitions_table(definitions: Seq<ModelDefinitionView>) -> TableView
    decreases definitions.len(),
{
    if definitions.len() == 0 {
        TableView::empty()
    } else {
        let last = definitions.last();
        add_fields(
            definitions_table(definitions.drop_last()),
            snake_case(last.name) + "."@,
            last.fields,
        )
    }
}

/// Adds the fields of one model to the table, keyed by `prefix` followed by the
/// field's name: each field whose configuration is a table that gives a pair,
/// taken in order, so that a later field replaces an earlier one under the same key.
pub fn add_model_fields(table: &mut TranslationTable, prefix: &str, fields: &Vec<FieldDefinition>)
    ensures
        table_contents(*final(table)) == add_fields(
            table_contents(*old(table)),
            prefix@,
            fields@.map_values(|f: FieldDefinition| f@),
        ),
{
    let ghost start = table_contents(*table);
    let ghost views = fields@.map_values(|f: FieldDefinition| f@);
    let m = fields.len();
    let mut j: usize = 0;
    while j < m
        invariant
            m == fields@.len(),
            views == fields@.map_values(|f: FieldDefinition| f@),
            j <= m,
            table_contents(*table) == add_fields(start, prefix@, views.take(j as int)),
        decreases m - j,
    {
        let field = &fields[j];
        assert(views.take(j + 1).drop_last() =~= views.take(j as int));
        assert(views.take(j + 1).last() == field@);
        match &field.config {
            Some(config) => {
                let translation = Translation::with_config(config);
                if translation.is_ready() {
                    let mut key = prefix.to_owned();
                    key.append(field.name.as_str());
                    table.insert(key, translation);
                }
            },
            None => {},
        }
        j = j + 1;
    }
    assert(views.take(m as int) =~= views);
}

/// Builds the translation table of model definitions, taken in order.
pub fn build_model_translations(definitions: &Vec<ModelDefinition>) -> (r: TranslationTable)
    ensures
        table_contents(r) == definitions_table(definitions@.map_values(|d: ModelDefinition| d@)),
{
    let ghost defs = definitions@.map_values(|d: ModelDefinition| d@);
    let mut table = TranslationTable::new();
    let n = definitions.len();
    let mut i: usize = 0;
    while i < n
        invariant
            n == definitions@.len(),
            defs == definitions@.map_values(|d: ModelDefinition| d@),
            i <= n,
            table_contents(table) == definitions_table(defs.take(i as int)),
        decreases n - i,
    {
        let definition = &definitions[i];
        assert(defs.take(i + 1).drop_last() =~= defs.take(i as int));
        assert(defs.take(i + 1).last() == definition@);
        let mut prefix = to_snake_case(definition.name.as_str());
        prefix.append(".");
        add_model_fields(&mut table, prefix.as_str(), &definition.fields);
        i = i + 1;
    }
    assert(defs.take(n as int) =~= defs);
    table
}

} // verus!
