use diesel_derive_newtype::codegen::{
    gen_asexpressions, gen_build_from_inner, gen_from_sql, gen_impls, gen_query_id, gen_queryable,
    gen_tosql, wrap_impls_in_const,
};
use diesel_derive_newtype::expand::expand_sql_types;
use diesel_derive_newtype::input::{Attr, AttrMeta, AttrPath, Data, DeriveInput, Fields};
use diesel_derive_newtype::tokens::Tok;

fn newtype(name: &str, ty: &str, attr: Option<Vec<Tok>>) -> DeriveInput {
    let attrs = match attr {
        Some(toks) => vec![Attr {
            path: AttrPath { leading_colon: false, segments: vec!["diesel_newtype".to_string()] },
            meta: AttrMeta::List(toks),
        }],
        None => Vec::new(),
    };
    DeriveInput {
        ident: name.to_string(),
        attrs,
        data: Data::Struct(Fields::Unnamed(vec![ty.to_string()])),
    }
}

fn parses_as_rust(code: &str) -> Vec<proc_macro2::TokenTree> {
    code.parse::<proc_macro2::TokenStream>().expect("generated code lexes").into_iter().collect()
}

#[test]
fn query_id_text() {
    assert_eq!(
        gen_query_id("MyId"),
        "impl diesel::query_builder::QueryId for MyId {\n    type QueryId = Self;\n}\n"
    );
}

#[test]
fn wrap_in_anonymous_const() {
    assert_eq!(wrap_impls_in_const("struct X;\n"), "const _: () = {\nstruct X;\n};\n");
}

#[test]
fn direct_build_wraps_inner() {
    assert_eq!(gen_build_from_inner("MyId", None), "::std::result::Result::Ok(MyId(inner))");
}

#[test]
fn converting_build_uses_try_into() {
    assert_eq!(
        gen_build_from_inner("Even", Some("i32")),
        "::std::convert::TryInto::try_into(inner)\n            .map_err(::std::convert::Into::into)"
    );
}

#[test]
fn tosql_serializes_inner_field() {
    let code = gen_tosql("MyId", "i64");
    assert!(code.starts_with("impl<ST, DB> diesel::serialize::ToSql<ST, DB> for MyId\nwhere\n    i64: diesel::serialize::ToSql<ST, DB>,"));
    assert!(code.contains("self.0.to_sql(out)"));
    parses_as_rust(&code);
}

#[test]
fn as_expression_for_value_and_references() {
    let code = gen_asexpressions("MyId", "i64");
    assert!(code.contains("AsExpression<ST> for MyId\n"));
    assert!(code.contains("AsExpression<ST> for &'expr MyId\n"));
    assert!(code.contains("AsExpression<ST> for &'expr2 &'expr MyId\n"));
    assert_eq!(code.matches("Bound<ST, i64>").count(), 3);
    let trees = parses_as_rust(&code);
    let impls = trees.iter().filter(|t| matches!(t, proc_macro2::TokenTree::Ident(i) if i == "impl")).count();
    assert_eq!(impls, 3);
}

#[test]
fn from_sql_reads_field_type_without_try_from() {
    let code = gen_from_sql("MyId", "i64", None);
    assert!(code.contains("    i64: diesel::deserialize::FromSql<ST, DB>,"));
    assert!(code.contains("let inner: i64 ="));
    assert!(code.contains("::std::result::Result::Ok(MyId(inner))"));
    parses_as_rust(&code);
}

#[test]
fn from_sql_reads_try_from_type() {
    let code = gen_from_sql("Even", "i32", Some("i64"));
    assert!(code.contains("    i64: diesel::deserialize::FromSql<ST, DB>,"));
    assert!(code.contains("let inner: i64 ="));
    assert!(code.contains("::std::convert::TryInto::try_into(inner)"));
    parses_as_rust(&code);
}

#[test]
fn queryable_row_is_read_type() {
    let code = gen_queryable("Even", "i32", Some("i64"));
    assert!(code.contains("type Row = i64;"));
    assert!(code.contains("i64: diesel::deserialize::FromStaticSqlRow<ST, DB>,"));
    parses_as_rust(&code);
    let code = gen_queryable("MyId", "i64", None);
    assert!(code.contains("type Row = i64;"));
    assert!(code.contains("Ok(MyId(inner))"));
}

#[test]
fn whole_expansion_parses_as_one_const() {
    let code = gen_impls("MyId", "Option < i64 >", None);
    let trees = parses_as_rust(&code);
    assert_eq!(trees.len(), 7);
    assert!(code.starts_with("const _: () = {\n"));
    assert!(code.ends_with("impl diesel::query_builder::QueryId for MyId {\n    type QueryId = Self;\n}\n};\n"));
}

#[test]
fn expansion_without_try_from() {
    let code = expand_sql_types(&newtype("MyId", "i64", None)).unwrap();
    assert_eq!(code, gen_impls("MyId", "i64", None));
}

#[test]
fn bare_try_from_reads_field_type() {
    let bare = expand_sql_types(&newtype("Doubled", "i32", Some(vec![Tok::Ident("try_from".into())]))).unwrap();
    let explicit = expand_sql_types(&newtype(
        "Doubled",
        "i32",
        Some(vec![
            Tok::Ident("try_from".into()),
            Tok::Punct { ch: '=', joint: false },
            Tok::Ident("i32".into()),
        ]),
    ))
    .unwrap();
    assert_eq!(bare, explicit);
    assert_eq!(bare, gen_impls("Doubled", "i32", Some("i32")));
}

#[test]
fn try_from_only_changes_the_read_path() {
    let plain = expand_sql_types(&newtype("Even", "i32", None)).unwrap();
    let converted = expand_sql_types(&newtype(
        "Even",
        "i32",
        Some(vec![
            Tok::Ident("try_from".into()),
            Tok::Punct { ch: '=', joint: false },
            Tok::Ident("i64".into()),
        ]),
    ))
    .unwrap();
    let write = format!("const _: () = {{\n{}{}", gen_tosql("Even", "i32"), gen_asexpressions("Even", "i32"));
    assert!(plain.starts_with(&write));
    assert!(converted.starts_with(&write));
    assert_ne!(plain, converted);
    assert!(converted.contains("let inner: i64 ="));
    parses_as_rust(&converted);
}

#[test]
fn refused_attribute_gives_no_code() {
    let err = expand_sql_types(&newtype("X", "i64", Some(vec![Tok::Ident("bogus".into())]))).unwrap_err();
    assert_eq!(err.kind, diesel_derive_newtype::error::ErrorKind::UnsupportedKey);
}
