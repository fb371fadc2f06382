# zino model handling, verified

A Verus library for the model side of the zino framework:

- `json`: JSON values and JSON objects (string keys, insertion order, no duplicates).
- `validation`: the record of failed fields, and parsers for JSON values.
- `identifier`, `datetime`: UUIDs and points in time as plain integers.
- `model`: the `Model` trait, errors, and the context of a query with the
  records that hooks make about it.
- `query`: queries and mutations.
- `hook`: the `ModelHooks` trait and its default hooks.
- `translation`: field translations, the translation table built from model
  definitions, and `translate_model_entry`.
- `dataset`: the dataset model.
- `notification`: the layout of the notification component.
- `laws`: properties that hold across these operations.

Hooks do not log or measure by themselves: they add records and metrics
actions to the query's context. `app/` holds what runs outside the library:
conversion from `serde_json` and TOML, the serde form of the dataset, emitting
the context's records with `tracing` and its metrics with `metrics`, and the
dioxus component.
