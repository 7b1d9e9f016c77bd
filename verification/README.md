# diesel_derive_newtype

The logic of `#[derive(DieselNewType)]`, verified with Verus.

The derive makes a single-field tuple struct (a newtype such as
`struct MyId(i64);`) usable anywhere Diesel accepts its field type, by
writing `ToSql`, `AsExpression`, `FromSql`, `Queryable` and `QueryId` impls
for it.  `#[diesel_newtype(try_from = Type)]` (or a bare
`#[diesel_newtype(try_from)]`, meaning the field type) makes the read path
deserialize `Type` and convert it with `try_into`, so that a newtype with an
invariant cannot be built from an invalid database value.

Layout:

- `src/` — the verified library.
  - `tokens.rs`, `input.rs`: a plain model of the item and its attributes.
  - `attr.rs`: the grammar of `#[diesel_newtype(...)]` and `parse_try_from`.
  - `source.rs`: reads the item from its source text through `syn` and
    assembles the model.
  - `syn_type.rs`: asks `syn` whether the tokens after `try_from =` form a type.
  - `codegen.rs`: the generated impls, as text, with their exact specifications.
  - `expand.rs`: the shape check, `expand_sql_types`, and the derive as a
    whole from source text (`diesel_new_type`).
  - `error.rs`: refusals, their messages and where they point.
- `app/` — the proc-macro boundary: hands the item's text to the library,
  turns the generated text back into tokens, and spans refusals.
- `tests/` — tests of the library on concrete items.
