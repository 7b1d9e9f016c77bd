use diesel_derive_newtype::diesel_new_type;
use diesel_derive_newtype::error::{ErrorKind, ErrorSite};
use diesel_derive_newtype::expand::DeriveFailure;
use diesel_derive_newtype::input::{AttrMeta, Data, Fields};
use diesel_derive_newtype::source::read_derive_input;
use diesel_derive_newtype::tokens::Tok;

#[test]
fn reads_a_tuple_struct_with_attributes() {
    let ast = read_derive_input(
        "#[derive(Debug)] #[diesel_newtype(try_from = Option<i32>)] pub struct Even(pub i32);",
    )
    .unwrap();
    assert_eq!(ast.ident, "Even");
    assert_eq!(ast.data, Data::Struct(Fields::Unnamed(vec!["i32".to_string()])));
    assert_eq!(ast.attrs.len(), 2);
    assert_eq!(ast.attrs[0].path.segments, vec!["derive".to_string()]);
    assert_eq!(ast.attrs[1].path.segments, vec!["diesel_newtype".to_string()]);
    assert!(!ast.attrs[1].path.leading_colon);
    match &ast.attrs[1].meta {
        AttrMeta::List(toks) => {
            assert_eq!(toks.len(), 6);
            assert_eq!(toks[0], Tok::Ident("try_from".to_string()));
            assert_eq!(toks[1], Tok::Punct { ch: '=', joint: false });
            assert_eq!(toks[3], Tok::Punct { ch: '<', joint: false });
        }
        other => panic!("unexpected {:?}", other),
    }
}

#[test]
fn reads_attribute_forms() {
    let ast = read_derive_input("#[diesel_newtype] #[doc = \"x\"] #[::a::b(c)] struct S(u8);").unwrap();
    assert_eq!(ast.attrs[0].meta, AttrMeta::Path);
    assert_eq!(ast.attrs[1].meta, AttrMeta::NameValue);
    assert!(ast.attrs[2].path.leading_colon);
    assert_eq!(ast.attrs[2].path.segments, vec!["a".to_string(), "b".to_string()]);
    assert_eq!(ast.attrs[2].meta, AttrMeta::List(vec![Tok::Ident("c".to_string())]));
}

#[test]
fn reads_shapes() {
    assert_eq!(read_derive_input("enum Color { Red, Green }").unwrap().data, Data::Enum);
    assert_eq!(read_derive_input("union U { a: u8 }").unwrap().data, Data::Union);
    assert_eq!(read_derive_input("struct S;").unwrap().data, Data::Struct(Fields::Unit));
    assert_eq!(
        read_derive_input("struct Named { value: i64 }").unwrap().data,
        Data::Struct(Fields::Named(vec!["i64".to_string()]))
    );
    assert_eq!(
        read_derive_input("struct TwoFields(i64, Vec<u8>);").unwrap().data,
        Data::Struct(Fields::Unnamed(vec!["i64".to_string(), "Vec < u8 >".to_string()]))
    );
}

#[test]
fn unreadable_text_is_a_syntax_failure() {
    assert!(read_derive_input("struct").is_err());
    match diesel_new_type("fn f() {}") {
        Err(DeriveFailure::Syntax(m)) => assert!(!m.is_empty()),
        other => panic!("unexpected {:?}", other),
    }
}

#[test]
fn derives_a_newtype_from_text() {
    let code = diesel_new_type("#[derive(Debug)] struct MyId(i64);").unwrap();
    assert!(code.starts_with("const _: () = {\nimpl<ST, DB> diesel::serialize::ToSql<ST, DB> for MyId\n"));
    assert!(code.contains("::std::result::Result::Ok(MyId(inner))"));
}

#[test]
fn derives_with_try_from_from_text() {
    let code = diesel_new_type("#[diesel_newtype(try_from = i32)] pub struct Even(i32);").unwrap();
    assert!(code.contains("let inner: i32 ="));
    assert!(code.contains("::std::convert::TryInto::try_into(inner)"));
    let bare = diesel_new_type("#[diesel_newtype(try_from)] pub struct Even(i32);").unwrap();
    assert_eq!(bare, code);
}

#[test]
fn enum_is_refused_from_text() {
    match diesel_new_type("enum Color { Red, Green }") {
        Err(DeriveFailure::Refused(e)) => {
            assert_eq!(e.kind, ErrorKind::NotNewtype);
            assert_eq!(e.site, ErrorSite::Name);
        }
        other => panic!("unexpected {:?}", other),
    }
}

#[test]
fn duplicate_try_from_is_refused_from_text() {
    match diesel_new_type("#[diesel_newtype(try_from = i64, try_from = i64)] struct DupTryFrom(i64);") {
        Err(DeriveFailure::Refused(e)) => {
            assert_eq!(e.kind, ErrorKind::DuplicateTryFrom);
            assert_eq!(e.site, ErrorSite::Tokens { attr: 0, start: 4, end: 5 });
        }
        other => panic!("unexpected {:?}", other),
    }
}

#[test]
fn empty_attribute_is_refused_from_text() {
    match diesel_new_type("#[diesel_newtype()] struct EmptyParens(i64);") {
        Err(DeriveFailure::Refused(e)) => {
            assert_eq!(e.kind, ErrorKind::EmptyAttribute);
            assert_eq!(e.site, ErrorSite::Attribute(0));
        }
        other => panic!("unexpected {:?}", other),
    }
}
