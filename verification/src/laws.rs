//! Properties that hold across the operations of the library.
use vstd::prelude::*;
use crate::dataset::{read_dataset, read_failures, DatasetView};
use crate::hook::after_failure;
use crate::json::JsonValueView;
use crate::model::{error_fields, LogLevel, QueryContextView};
use crate::translation::{
    add_fields, config_pairs, definitions_table, field_translation, snake_case,
    lemma_translated_key_injective, translated, translated_entries, translated_key,
    translates_field, FieldDefinitionView, ModelDefinitionView, TableView,
};
use crate::hook::{decimal_text, digit_char, rows_message};
use crate::notification::notification_classes;

verus! {

/// A value written into a JSON object under a key is what reading that key
/// gives back, and every other key reads as before.
pub proof fn law_get_after_upsert(
    m: Map<Seq<char>, JsonValueView>,
    key: Seq<char>,
    value: JsonValueView,
    other: Seq<char>,
)
    requires
        other != key,
    ensures
        m.insert(key, value).contains_key(key),
        m.insert(key, value)[key] == value,
        m.insert(key, value).contains_key(other) == m.contains_key(other),
        m.contains_key(other) ==> m.insert(key, value)[other] == m[other],
{
}

/// Appending a JSON object to another keeps every key of both, and a key that
/// both hold reads as in the appended object.
pub proof fn law_append_prefers_appended(
    m: Map<Seq<char>, JsonValueView>,
    other: Map<Seq<char>, JsonValueView>,
    key: Seq<char>,
)
    ensures
        m.union_prefer_right(other).contains_key(key) == (m.contains_key(key) || other.contains_key(key)),
        other.contains_key(key) ==> m.union_prefer_right(other)[key] == other[key],
        !other.contains_key(key) && m.contains_key(key) ==> m.union_prefer_right(other)[key] == m[key],
{
}

/// Translating a model's data leaves every key that is not a translated key
/// (one ending in `_translated`) as it was.
pub proof fn law_translation_keeps_other_keys(
    table: TableView,
    model_name: Seq<char>,
    model: Map<Seq<char>, JsonValueView>,
    key: Seq<char>,
)
    requires
        forall|f: Seq<char>| translated_key(f) != key,
    ensures
        model.union_prefer_right(translated_entries(table, model_name, model)).contains_key(key)
            == model.contains_key(key),
        model.contains_key(key) ==> model.union_prefer_right(
            translated_entries(table, model_name, model),
        )[key] == model[key],
{
    assert(!translated_entries(table, model_name, model).contains_key(key));
}

/// Translating a model's data writes, for each field that the data holds and
/// the table translates for the model, the field's translated value under its
/// translated key.
pub proof fn law_translation_writes_each_field(
    table: TableView,
    model_name: Seq<char>,
    model: Map<Seq<char>, JsonValueView>,
    field: Seq<char>,
)
    requires
        table.contains_key(model_name + "."@ + field),
        model.contains_key(field),
    ensures
        ({
            let result = model.union_prefer_right(translated_entries(table, model_name, model));
            &&& result.contains_key(translated_key(field))
            &&& result[translated_key(field)] == field_translation(
                table[model_name + "."@ + field],
                model[field],
            )
        }),
{
    let prefix = model_name + "."@;
    let entries = translated_entries(table, model_name, model);
    assert(translates_field(table, prefix, model, field));
    assert(entries.contains_key(translated_key(field)));
    let g = choose|g: Seq<char>|
        #[trigger] translated_key(g) == translated_key(field) && translates_field(table, prefix, model, g);
    lemma_translated_key_injective(g, field);
}

/// Translating a model's data adds no key but the translated key of a field
/// that the data holds and the table translates for the model.
pub proof fn law_translation_adds_only_translated_fields(
    table: TableView,
    model_name: Seq<char>,
    model: Map<Seq<char>, JsonValueView>,
    key: Seq<char>,
)
    requires
        model.union_prefer_right(translated_entries(table, model_name, model)).contains_key(key),
        !model.contains_key(key),
    ensures
        exists|f: Seq<char>|
            #[trigger] translated_key(f) == key && table.contains_key(model_name + "."@ + f)
                && model.contains_key(f),
{
    let prefix = model_name + "."@;
    let f = choose|f: Seq<char>| #[trigger] translated_key(f) == key && translates_field(table, prefix, model, f);
    assert(translated_key(f) == key && table.contains_key(model_name + "."@ + f) && model.contains_key(f));
}

/// Every translation that adding a model's fields puts in a table has a pair,
/// when every translation already there has one.
proof fn lemma_add_fields_ready(table: TableView, prefix: Seq<char>, fields: Seq<FieldDefinitionView>)
    requires
        forall|k: Seq<char>| #[trigger] table.contains_key(k) ==> table[k].len() > 0,
    ensures
        forall|k: Seq<char>| #[trigger] add_fields(table, prefix, fields).contains_key(k)
            ==> add_fields(table, prefix, fields)[k].len() > 0,
    decreases fields.len(),
{
    if fields.len() > 0 {
        lemma_add_fields_ready(table, prefix, fields.drop_last());
        let t = add_fields(table, prefix, fields.drop_last());
        let result = add_fields(table, prefix, fields);
        assert forall|k: Seq<char>| #[trigger] result.contains_key(k) implies result[k].len() > 0 by {
            assert(t.contains_key(k) ==> t[k].len() > 0);
        }
    }
}

/// Every translation in the table that model definitions give has a pair:
/// a field whose configuration gives no pair is left out.
pub proof fn law_table_translations_ready(definitions: Seq<ModelDefinitionView>, key: Seq<char>)
    requires
        definitions_table(definitions).contains_key(key),
    ensures
        definitions_table(definitions)[key].len() > 0,
{
    lemma_definitions_ready(definitions);
}

proof fn lemma_definitions_ready(definitions: Seq<ModelDefinitionView>)
    ensures
        forall|k: Seq<char>| #[trigger] definitions_table(definitions).contains_key(k)
            ==> definitions_table(definitions)[k].len() > 0,
    decreases definitions.len(),
{
    if definitions.len() > 0 {
        let last = definitions.last();
        lemma_definitions_ready(definitions.drop_last());
        lemma_add_fields_ready(
            definitions_table(definitions.drop_last()),
            snake_case(last.name) + "."@,
            last.fields,
        );
    }
}

/// Translating a model's data twice gives what translating it once gives, when
/// no field that the table translates for the model has its translated key
/// translated as well.
pub proof fn law_translation_idempotent(
    table: TableView,
    model_name: Seq<char>,
    model: Map<Seq<char>, JsonValueView>,
)
    requires
        forall|f: Seq<char>| #[trigger]
            table.contains_key(model_name + "."@ + f) ==> !table.contains_key(
                model_name + "."@ + translated_key(f),
            ),
    ensures
        ({
            let once = model.union_prefer_right(translated_entries(table, model_name, model));
            once.union_prefer_right(translated_entries(table, model_name, once)) == once
        }),
{
    let prefix = model_name + "."@;
    let t0 = translated_entries(table, model_name, model);
    let once = model.union_prefer_right(t0);
    let t1 = translated_entries(table, model_name, once);
    assert forall|f: Seq<char>| #[trigger] table.contains_key(prefix + f) implies !t0.contains_key(f) by {
        if t0.contains_key(f) {
            let g = choose|g: Seq<char>| #[trigger] translated_key(g) == f && translates_field(table, prefix, model, g);
            assert(table.contains_key(prefix + g));
        }
    }
    assert forall|f: Seq<char>|
        translates_field(table, prefix, once, f) == translates_field(table, prefix, model, f) by {
        if table.contains_key(prefix + f) {
            assert(!t0.contains_key(f));
        }
    }
    assert forall|k: Seq<char>| #[trigger] t1.contains_key(k) == t0.contains_key(k) by {
        if t1.contains_key(k) {
            let f = choose|f: Seq<char>| #[trigger] translated_key(f) == k && translates_field(table, prefix, once, f);
            assert(translates_field(table, prefix, model, f));
        }
        if t0.contains_key(k) {
            let f = choose|f: Seq<char>| #[trigger] translated_key(f) == k && translates_field(table, prefix, model, f);
            assert(translates_field(table, prefix, once, f));
        }
    }
    assert forall|k: Seq<char>| #[trigger] t1.contains_key(k) implies t1[k] == t0[k] by {
        let f = choose|f: Seq<char>| #[trigger] translated_key(f) == k && translates_field(table, prefix, once, f);
        let g = choose|g: Seq<char>| #[trigger] translated_key(g) == k && translates_field(table, prefix, model, g);
        lemma_translated_key_injective(f, g);
        assert(!t0.contains_key(f));
    }
    assert(t1 =~= t0);
    assert(once.union_prefer_right(t0) =~= once);
}

/// Reading a dataset from an object succeeds, with no failed entry, exactly
/// when the id, if the object has one, parses, and the dataset's name after
/// reading is not empty.
pub proof fn law_read_map_succeeds_iff(
    d: DatasetView,
    id: Option<Result<u128, Seq<char>>>,
    data: Map<Seq<char>, JsonValueView>,
)
    ensures
        (read_failures(d, id, data) == Map::<Seq<char>, JsonValueView>::empty()) <==> (
        !(id matches Some(Err(_))) && read_dataset(d, id, data).name.len() > 0),
{
    let f = read_failures(d, id, data);
    if id matches Some(Err(_)) {
        assert(f.contains_key("id"@));
    }
    if read_dataset(d, id, data).name.len() == 0 {
        assert(f.contains_key("name"@));
    }
    if !(id matches Some(Err(_))) && read_dataset(d, id, data).name.len() > 0 {
        assert(f =~= Map::<Seq<char>, JsonValueView>::empty());
    }
}

/// A hook that reports a failed query adds exactly one error record, with the
/// query id, the query text and the arguments, and changes nothing else; after
/// a successful query it changes nothing.
pub proof fn law_failure_reported_once(ctx: QueryContextView, message: Seq<char>)
    ensures
        ctx.success ==> after_failure(ctx, message) == ctx,
        !ctx.success ==> after_failure(ctx, message).records == ctx.records.push(
            (LogLevel::Error, message, error_fields(ctx.query)),
        ),
        after_failure(ctx, message).model_name == ctx.model_name,
        after_failure(ctx, message).query == ctx.query,
        after_failure(ctx, message).success == ctx.success,
{
}

/// Adding one model's fields keeps every other key of the table: a key that is
/// not the prefix followed by the name of one of the fields is held afterwards
/// exactly when it was held before, with the same translation.
pub proof fn law_add_fields_keeps_other_keys(
    table: TableView,
    prefix: Seq<char>,
    fields: Seq<FieldDefinitionView>,
    key: Seq<char>,
)
    requires
        forall|i: int| 0 <= i < fields.len() ==> prefix + #[trigger] fields[i].name != key,
    ensures
        add_fields(table, prefix, fields).contains_key(key) == table.contains_key(key),
        table.contains_key(key) ==> add_fields(table, prefix, fields)[key] == table[key],
    decreases fields.len(),
{
    if fields.len() > 0 {
        let rest = fields.drop_last();
        assert forall|i: int| 0 <= i < rest.len() implies prefix + #[trigger] rest[i].name != key by {
            assert(rest[i] == fields[i]);
        }
        law_add_fields_keeps_other_keys(table, prefix, rest, key);
        assert(fields[fields.len() - 1] == fields.last());
    }
}

/// Adding one model's fields puts, under the prefix followed by a field's name,
/// a translation with at least one pair, for each field whose configuration
/// holds a string.
pub proof fn law_add_fields_adds_each_field(
    table: TableView,
    prefix: Seq<char>,
    fields: Seq<FieldDefinitionView>,
    i: int,
)
    requires
        0 <= i < fields.len(),
        fields[i].config matches Some(c) && config_pairs(c).len() > 0,
    ensures
        add_fields(table, prefix, fields).contains_key(prefix + fields[i].name),
        add_fields(table, prefix, fields)[prefix + fields[i].name].len() > 0,
    decreases fields.len(),
{
    let rest = fields.drop_last();
    let t = add_fields(table, prefix, rest);
    if i < fields.len() - 1 {
        assert(rest[i] == fields[i]);
        law_add_fields_adds_each_field(table, prefix, rest, i);
    }
}

/// The table that model definitions give keeps the keys of every model before
/// the last one that the last model's fields do not name.
pub proof fn law_definitions_keep_earlier_models(definitions: Seq<ModelDefinitionView>, key: Seq<char>)
    requires
        definitions.len() > 0,
        forall|i: int|
            0 <= i < definitions.last().fields.len() ==> snake_case(definitions.last().name) + "."@
                + #[trigger] definitions.last().fields[i].name != key,
    ensures
        definitions_table(definitions).contains_key(key) == definitions_table(
            definitions.drop_last(),
        ).contains_key(key),
        definitions_table(definitions.drop_last()).contains_key(key) ==> definitions_table(
            definitions,
        )[key] == definitions_table(definitions.drop_last())[key],
{
    law_add_fields_keeps_other_keys(
        definitions_table(definitions.drop_last()),
        snake_case(definitions.last().name) + "."@,
        definitions.last().fields,
        key,
    );
}

/// A translated field whose translation gives nothing for its value keeps that
/// value, whatever kind of JSON value it is; one whose translation gives a
/// string is written as that string.
pub proof fn law_translation_falls_back_to_value(
    table: TableView,
    model_name: Seq<char>,
    model: Map<Seq<char>, JsonValueView>,
    field: Seq<char>,
)
    requires
        table.contains_key(model_name + "."@ + field),
        model.contains_key(field),
    ensures
        ({
            let result = model.union_prefer_right(translated_entries(table, model_name, model));
            let t = table[model_name + "."@ + field];
            &&& result.contains_key(translated_key(field))
            &&& translated(t, model[field]) is None ==> result[translated_key(field)] == model[field]
            &&& translated(t, model[field]) matches Some(x) ==> result[translated_key(field)] == x
        }),
{
    law_translation_writes_each_field(table, model_name, model, field);
}

/// Reading an object that holds no string under `name` keeps the dataset's
/// name, and reports the name as failed exactly when that kept name is empty;
/// reading one that holds a string there takes that string as the name.
pub proof fn law_read_map_keeps_name(
    d: DatasetView,
    id: Option<Result<u128, Seq<char>>>,
    data: Map<Seq<char>, JsonValueView>,
)
    ensures
        !(data.contains_key("name"@) && data["name"@] is Text) ==> {
            &&& read_dataset(d, id, data).name == d.name
            &&& read_failures(d, id, data).contains_key("name"@) == (d.name.len() == 0)
        },
        data.contains_key("name"@) ==> (data["name"@] matches JsonValueView::Text(s) ==> read_dataset(
            d,
            id,
            data,
        ).name == s),
        read_dataset(d, id, data).id == match id {
            Some(Ok(v)) => v,
            _ => d.id,
        },
{
    reveal_strlit("id");
    reveal_strlit("name");
    assert("id"@.len() == 2);
    assert("name"@.len() == 4);
    assert("id"@ != "name"@);
}

/// The value of a decimal digit character.
pub open spec fn digit_value(c: char) -> nat {
    if c == '1' {
        1
    } else if c == '2' {
        2
    } else if c == '3' {
        3
    } else if c == '4' {
        4
    } else if c == '5' {
        5
    } else if c == '6' {
        6
    } else if c == '7' {
        7
    } else if c == '8' {
        8
    } else if c == '9' {
        9
    } else {
        0
    }
}

/// Whether a character is a decimal digit.
pub open spec fn is_digit(c: char) -> bool {
    c == '0' || c == '1' || c == '2' || c == '3' || c == '4' || c == '5' || c == '6' || c == '7'
        || c == '8' || c == '9'
}

/// The number that a text of decimal digits spells, most significant first.
pub open spec fn decimal_value(s: Seq<char>) -> nat
    decreases s.len(),
{
    if s.len() == 0 {
        0
    } else {
        decimal_value(s.drop_last()) * 10 + digit_value(s.last())
    }
}

/// The decimal text of a number is a nonempty text of digits, without a
/// leading zero unless the number is zero, that spells the number back.
pub proof fn law_decimal_text_spells_number(n: nat)
    ensures
        decimal_text(n).len() > 0,
        forall|i: int| 0 <= i < decimal_text(n).len() ==> is_digit(#[trigger] decimal_text(n)[i]),
        decimal_value(decimal_text(n)) == n,
        n > 0 ==> decimal_text(n)[0] != '0',
    decreases n,
{
    if n >= 10 {
        law_decimal_text_spells_number(n / 10);
        let p = decimal_text(n / 10);
        let s = p.push(digit_char(n % 10));
        assert(s.drop_last() =~= p);
        assert(forall|i: int| 0 <= i < p.len() ==> s[i] == p[i]);
        assert(decimal_value(s) == decimal_value(p) * 10 + digit_value(digit_char(n % 10)));
        assert(digit_value(digit_char(n % 10)) == n % 10);
        assert((n / 10) * 10 + n % 10 == n);
    } else {
        let s = decimal_text(n);
        assert(s.drop_last() =~= Seq::<char>::empty());
        assert(s.last() == digit_char(n));
        assert(digit_value(digit_char(n)) == n);
        assert(decimal_value(s) == decimal_value(s.drop_last()) * 10 + digit_value(s.last()));
        assert(decimal_value(Seq::<char>::empty()) == 0);
    }
}

/// The message for more than one row is a number followed by
/// ` rows affected or fetched`, and the number spells the count of rows.
pub proof fn law_rows_message_spells_count(n: u64)
    requires
        n > 1,
    ensures
        ({
            let m = rows_message(Some(n));
            let suffix = " rows affected or fetched"@;
            &&& m.len() > suffix.len()
            &&& m.skip(m.len() - suffix.len()) == suffix
            &&& decimal_value(m.take(m.len() - suffix.len())) == n
            &&& forall|i: int| 0 <= i < m.len() - suffix.len() ==> is_digit(#[trigger] m[i])
        }),
{
    let m = rows_message(Some(n));
    let suffix = " rows affected or fetched"@;
    let p = decimal_text(n as nat);
    law_decimal_text_spells_number(n as nat);
    assert(m == p + suffix);
    assert(m.skip(m.len() - suffix.len()) =~= suffix);
    assert(m.take(m.len() - suffix.len()) =~= p);
    assert forall|i: int| 0 <= i < m.len() - suffix.len() implies is_digit(#[trigger] m[i]) by {
        assert(m[i] == p[i]);
    }
}

/// The classes of a notification: its own class first; one more class for a
/// color, one for a theme and one when hidden, each independently of the
/// others; the color's and the theme's classes are `is-` followed by them, and
/// the hidden one is `is-hidden`.
pub proof fn law_notification_classes(
    class: Seq<char>,
    color: Seq<char>,
    theme: Seq<char>,
    visible: bool,
)
    ensures
        ({
            let c = notification_classes(class, color, theme, visible);
            &&& c[0] == class
            &&& c.len() == 1 + (if color.len() > 0 { 1int } else { 0 }) + (if theme.len() > 0 {
                1int
            } else {
                0
            }) + (if visible { 0int } else { 1 })
            &&& color.len() > 0 ==> c.contains("is-"@ + color)
            &&& theme.len() > 0 ==> c.contains("is-"@ + theme)
            &&& !visible ==> c.contains("is-hidden"@)
        }),
{
    let c = notification_classes(class, color, theme, visible);
    if color.len() > 0 {
        assert(c[1] == "is-"@ + color);
    }
    if theme.len() > 0 {
        let j = if color.len() > 0 { 2int } else { 1 };
        assert(c[j] == "is-"@ + theme);
    }
    if !visible {
        assert(c[c.len() - 1] == "is-hidden"@);
    }
}

} // verus!
