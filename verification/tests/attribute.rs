use diesel_derive_newtype::attr::{parse_nested_entries, parse_try_from, TryFromAttr};
use diesel_derive_newtype::error::{ErrorKind, ErrorSite};
use diesel_derive_newtype::input::{Attr, AttrMeta, AttrPath};
use diesel_derive_newtype::tokens::{tokens_text_of, Tok};

fn ident(s: &str) -> Tok {
    Tok::Ident(s.to_string())
}

fn punct(ch: char) -> Tok {
    Tok::Punct { ch, joint: false }
}

fn joint(ch: char) -> Tok {
    Tok::Punct { ch, joint: true }
}

fn lit(s: &str) -> Tok {
    Tok::Literal(s.to_string())
}

fn path(segs: &[&str]) -> AttrPath {
    AttrPath { leading_colon: false, segments: segs.iter().map(|s| s.to_string()).collect() }
}

fn newtype_attr(toks: Vec<Tok>) -> Attr {
    Attr { path: path(&["diesel_newtype"]), meta: AttrMeta::List(toks) }
}

#[test]
fn no_attribute_wraps_directly() {
    assert_eq!(parse_try_from(&Vec::new()).unwrap(), TryFromAttr::Absent);
}

#[test]
fn bare_try_from() {
    let attrs = vec![newtype_attr(vec![ident("try_from")])];
    assert_eq!(parse_try_from(&attrs).unwrap(), TryFromAttr::Bare);
}

#[test]
fn bare_try_from_with_trailing_comma() {
    let attrs = vec![newtype_attr(vec![ident("try_from"), punct(',')])];
    assert_eq!(parse_try_from(&attrs).unwrap(), TryFromAttr::Bare);
}

#[test]
fn try_from_with_type() {
    let attrs = vec![newtype_attr(vec![ident("try_from"), punct('='), ident("i32")])];
    assert_eq!(parse_try_from(&attrs).unwrap(), TryFromAttr::InnerType("i32".to_string()));
}

#[test]
fn try_from_with_generic_type_keeps_inner_commas() {
    let toks = vec![
        ident("try_from"),
        punct('='),
        ident("HashMap"),
        punct('<'),
        ident("u8"),
        punct(','),
        ident("u16"),
        punct('>'),
        punct(','),
    ];
    let attrs = vec![newtype_attr(toks)];
    assert_eq!(
        parse_try_from(&attrs).unwrap(),
        TryFromAttr::InnerType("HashMap < u8 , u16 >".to_string())
    );
}

#[test]
fn try_from_with_function_type_arrow() {
    let toks = vec![
        ident("try_from"),
        punct('='),
        ident("fn"),
        Tok::Group("(u8)".to_string()),
        joint('-'),
        punct('>'),
        ident("Vec"),
        punct('<'),
        ident("u8"),
        punct('>'),
    ];
    let attrs = vec![newtype_attr(toks)];
    assert_eq!(
        parse_try_from(&attrs).unwrap(),
        TryFromAttr::InnerType("fn (u8) -> Vec < u8 >".to_string())
    );
}

#[test]
fn try_from_with_path_type() {
    let toks = vec![
        ident("try_from"),
        punct('='),
        joint(':'),
        punct(':'),
        ident("std"),
        joint(':'),
        punct(':'),
        ident("string"),
        joint(':'),
        punct(':'),
        ident("String"),
    ];
    let attrs = vec![newtype_attr(toks)];
    assert_eq!(
        parse_try_from(&attrs).unwrap(),
        TryFromAttr::InnerType(":: std :: string :: String".to_string())
    );
}

#[test]
fn other_attributes_are_ignored() {
    let attrs = vec![
        Attr { path: path(&["derive"]), meta: AttrMeta::List(vec![ident("Debug")]) },
        Attr { path: path(&["doc"]), meta: AttrMeta::NameValue },
        Attr { path: path(&["diesel", "newtype"]), meta: AttrMeta::Path },
    ];
    assert_eq!(parse_try_from(&attrs).unwrap(), TryFromAttr::Absent);
}

#[test]
fn leading_colon_path_is_not_the_attribute() {
    let attrs = vec![Attr {
        path: AttrPath { leading_colon: true, segments: vec!["diesel_newtype".to_string()] },
        meta: AttrMeta::Path,
    }];
    assert_eq!(parse_try_from(&attrs).unwrap(), TryFromAttr::Absent);
}

#[test]
fn bare_attribute_is_refused() {
    let attrs = vec![
        Attr { path: path(&["derive"]), meta: AttrMeta::List(vec![ident("Debug")]) },
        Attr { path: path(&["diesel_newtype"]), meta: AttrMeta::Path },
    ];
    let err = parse_try_from(&attrs).unwrap_err();
    assert_eq!(err.kind, ErrorKind::EmptyAttribute);
    assert_eq!(err.site, ErrorSite::Attribute(1));
    assert_eq!(
        err.kind.message(),
        "empty `#[diesel_newtype]` does nothing; write `#[diesel_newtype(try_from = Type)]`"
    );
}

#[test]
fn empty_parens_are_refused() {
    let err = parse_try_from(&vec![newtype_attr(Vec::new())]).unwrap_err();
    assert_eq!(err.kind, ErrorKind::EmptyAttribute);
    assert_eq!(err.site, ErrorSite::Attribute(0));
}

#[test]
fn name_value_attribute_is_refused() {
    let attrs = vec![Attr { path: path(&["diesel_newtype"]), meta: AttrMeta::NameValue }];
    assert_eq!(parse_try_from(&attrs).unwrap_err().kind, ErrorKind::EmptyAttribute);
}

#[test]
fn duplicate_try_from_is_refused() {
    let toks = vec![
        ident("try_from"),
        punct('='),
        ident("i64"),
        punct(','),
        ident("try_from"),
        punct('='),
        ident("i64"),
    ];
    let err = parse_try_from(&vec![newtype_attr(toks)]).unwrap_err();
    assert_eq!(err.kind, ErrorKind::DuplicateTryFrom);
    assert_eq!(err.site, ErrorSite::Tokens { attr: 0, start: 4, end: 5 });
    assert_eq!(err.kind.message(), "duplicate `try_from` in #[diesel_newtype(...)]");
}

#[test]
fn duplicate_try_from_across_attributes_is_refused() {
    let attrs = vec![newtype_attr(vec![ident("try_from")]), newtype_attr(vec![ident("try_from")])];
    let err = parse_try_from(&attrs).unwrap_err();
    assert_eq!(err.kind, ErrorKind::DuplicateTryFrom);
    assert_eq!(err.site, ErrorSite::Tokens { attr: 1, start: 0, end: 1 });
}

#[test]
fn unknown_key_is_refused() {
    let toks = vec![ident("bogus"), punct('='), ident("i64")];
    let err = parse_try_from(&vec![newtype_attr(toks)]).unwrap_err();
    assert_eq!(err.kind, ErrorKind::UnsupportedKey);
    assert_eq!(err.site, ErrorSite::Tokens { attr: 0, start: 0, end: 1 });
    assert_eq!(
        err.kind.message(),
        "unsupported #[diesel_newtype(...)] key, expected `try_from` or `try_from = Type`"
    );
}

#[test]
fn path_key_is_unsupported() {
    let toks = vec![ident("a"), joint(':'), punct(':'), ident("try_from")];
    let err = parse_try_from(&vec![newtype_attr(toks)]).unwrap_err();
    assert_eq!(err.kind, ErrorKind::UnsupportedKey);
    assert_eq!(err.site, ErrorSite::Tokens { attr: 0, start: 0, end: 4 });
}

#[test]
fn leading_colon_key_is_unsupported() {
    let toks = vec![joint(':'), punct(':'), ident("try_from")];
    let err = parse_try_from(&vec![newtype_attr(toks)]).unwrap_err();
    assert_eq!(err.kind, ErrorKind::UnsupportedKey);
    assert_eq!(err.site, ErrorSite::Tokens { attr: 0, start: 2, end: 3 });
}

#[test]
fn literal_key_is_refused() {
    let err = parse_try_from(&vec![newtype_attr(vec![lit("\"x\"")])]).unwrap_err();
    assert_eq!(err.kind, ErrorKind::LiteralInsteadOfKey);
    let err = parse_try_from(&vec![newtype_attr(vec![punct('-'), lit("1")])]).unwrap_err();
    assert_eq!(err.kind, ErrorKind::LiteralInsteadOfKey);
    assert_eq!(err.kind.message(), "unexpected literal in nested attribute, expected ident");
}

#[test]
fn other_token_key_is_refused() {
    let err = parse_try_from(&vec![newtype_attr(vec![punct('#')])]).unwrap_err();
    assert_eq!(err.kind, ErrorKind::TokenInsteadOfKey);
    assert_eq!(err.site, ErrorSite::Tokens { attr: 0, start: 0, end: 1 });
    let err = parse_try_from(&vec![newtype_attr(vec![punct('-'), lit("'c'")])]).unwrap_err();
    assert_eq!(err.kind, ErrorKind::TokenInsteadOfKey);
}

#[test]
fn empty_entry_is_refused() {
    let toks = vec![ident("try_from"), punct(','), punct(',')];
    let err = parse_try_from(&vec![newtype_attr(toks)]).unwrap_err();
    assert_eq!(err.kind, ErrorKind::TokenInsteadOfKey);
    assert_eq!(err.site, ErrorSite::Tokens { attr: 0, start: 2, end: 3 });
}

#[test]
fn lone_path_separator_is_refused() {
    let err = parse_try_from(&vec![newtype_attr(vec![joint(':'), punct(':')])]).unwrap_err();
    assert_eq!(err.kind, ErrorKind::MissingNestedAttribute);
    assert_eq!(err.site, ErrorSite::EndOfList(0));
    assert_eq!(err.kind.message(), "unexpected end of input, expected nested attribute");
}

#[test]
fn path_separator_without_segment_is_refused() {
    let err = parse_try_from(&vec![newtype_attr(vec![ident("a"), joint(':'), punct(':')])]).unwrap_err();
    assert_eq!(err.kind, ErrorKind::MissingIdent);
    assert_eq!(err.site, ErrorSite::EndOfList(0));
    let toks = vec![ident("a"), joint(':'), punct(':'), lit("1")];
    let err = parse_try_from(&vec![newtype_attr(toks)]).unwrap_err();
    assert_eq!(err.kind, ErrorKind::ExpectedIdent);
    assert_eq!(err.site, ErrorSite::Tokens { attr: 0, start: 3, end: 4 });
}

#[test]
fn missing_equals_is_refused() {
    let err = parse_try_from(&vec![newtype_attr(vec![ident("try_from"), ident("i64")])]).unwrap_err();
    assert_eq!(err.kind, ErrorKind::ExpectedEq);
    assert_eq!(err.site, ErrorSite::Tokens { attr: 0, start: 1, end: 2 });
    assert_eq!(err.kind.message(), "expected `=`");
}

#[test]
fn invalid_type_is_refused_with_the_type_parser_message() {
    let toks = vec![ident("try_from"), punct('='), lit("1"), punct('+')];
    let err = parse_try_from(&vec![newtype_attr(toks)]).unwrap_err();
    assert_eq!(err.site, ErrorSite::Tokens { attr: 0, start: 1, end: 4 });
    match &err.kind {
        ErrorKind::InvalidType(m) => {
            assert!(!m.is_empty());
            assert_ne!(m, "1 +");
        }
        other => panic!("unexpected {:?}", other),
    }
}

#[test]
fn missing_type_is_refused() {
    let toks = vec![ident("try_from"), punct('='), punct(',')];
    let err = parse_try_from(&vec![newtype_attr(toks)]).unwrap_err();
    assert_eq!(err.site, ErrorSite::Tokens { attr: 0, start: 1, end: 2 });
    assert!(matches!(err.kind, ErrorKind::InvalidType(_)));
}

#[test]
fn nested_entries_continue_from_the_given_choice() {
    let toks = vec![ident("try_from")];
    let err = parse_nested_entries(&toks, 3, TryFromAttr::Bare).unwrap_err();
    assert_eq!(err.kind, ErrorKind::DuplicateTryFrom);
    assert_eq!(err.site, ErrorSite::Tokens { attr: 3, start: 0, end: 1 });
}

#[test]
fn tokens_print_like_a_token_stream() {
    let toks = vec![joint('\''), ident("a"), ident("str"), joint(':'), punct(':'), ident("x")];
    assert_eq!(tokens_text_of(&toks, 0, 6), "'a str :: x");
    assert_eq!(tokens_text_of(&toks, 2, 2), "");
}

#[test]
fn foreign_attribute_inserted_before_moves_the_refusal() {
    let refused = vec![newtype_attr(vec![ident("bogus")])];
    let err = parse_try_from(&refused).unwrap_err();
    assert_eq!(err.site, ErrorSite::Tokens { attr: 0, start: 0, end: 1 });
    let with_doc = vec![
        Attr { path: path(&["doc"]), meta: AttrMeta::NameValue },
        newtype_attr(vec![ident("bogus")]),
    ];
    let moved = parse_try_from(&with_doc).unwrap_err();
    assert_eq!(moved.kind, err.kind);
    assert_eq!(moved.site, ErrorSite::Tokens { attr: 1, start: 0, end: 1 });
}

#[test]
fn empty_argument_list_leaves_the_choice() {
    assert_eq!(parse_nested_entries(&Vec::new(), 0, TryFromAttr::Bare).unwrap(), TryFromAttr::Bare);
}
