use diesel_derive_newtype::error::{ErrorKind, ErrorSite};
use diesel_derive_newtype::expand::{expand_sql_types, validate_wrapped_type};
use diesel_derive_newtype::input::{Attr, AttrMeta, AttrPath, Data, DeriveInput, Fields};

fn item(name: &str, data: Data) -> DeriveInput {
    DeriveInput { ident: name.to_string(), attrs: Vec::new(), data }
}

fn tuple(tys: &[&str]) -> Data {
    Data::Struct(Fields::Unnamed(tys.iter().map(|t| t.to_string()).collect()))
}

#[test]
fn single_field_tuple_struct_is_a_newtype() {
    let ast = item("MyId", tuple(&["i64"]));
    assert_eq!(validate_wrapped_type(&ast).unwrap(), "i64");
}

#[test]
fn enum_is_refused_at_its_name() {
    let err = validate_wrapped_type(&item("Color", Data::Enum)).unwrap_err();
    assert_eq!(err.kind, ErrorKind::NotNewtype);
    assert_eq!(err.site, ErrorSite::Name);
}

#[test]
fn union_is_refused_at_its_name() {
    let err = validate_wrapped_type(&item("U", Data::Union)).unwrap_err();
    assert_eq!(err.site, ErrorSite::Name);
}

#[test]
fn named_field_is_refused_at_its_fields() {
    let ast = item("Named", Data::Struct(Fields::Named(vec!["i64".to_string()])));
    let err = validate_wrapped_type(&ast).unwrap_err();
    assert_eq!(err.kind, ErrorKind::NotNewtype);
    assert_eq!(err.site, ErrorSite::Fields);
}

#[test]
fn two_fields_are_refused_at_the_fields() {
    let err = validate_wrapped_type(&item("TwoFields", tuple(&["i64", "i64"]))).unwrap_err();
    assert_eq!(err.site, ErrorSite::Fields);
}

#[test]
fn zero_fields_are_refused_at_the_fields() {
    let err = validate_wrapped_type(&item("Empty", tuple(&[]))).unwrap_err();
    assert_eq!(err.site, ErrorSite::Fields);
}

#[test]
fn unit_struct_is_refused_at_its_name() {
    let err = validate_wrapped_type(&item("Unit", Data::Struct(Fields::Unit))).unwrap_err();
    assert_eq!(err.site, ErrorSite::Name);
}

#[test]
fn not_newtype_message() {
    assert_eq!(
        ErrorKind::NotNewtype.message(),
        "#[derive(DieselNewType)] can only be used on a tuple struct with exactly one field, e.g. `struct Foo(i64);`"
    );
}

#[test]
fn shape_is_checked_before_attributes() {
    let mut ast = item("Color", Data::Enum);
    ast.attrs.push(Attr {
        path: AttrPath { leading_colon: false, segments: vec!["diesel_newtype".to_string()] },
        meta: AttrMeta::Path,
    });
    let err = expand_sql_types(&ast).unwrap_err();
    assert_eq!(err.kind, ErrorKind::NotNewtype);
}
