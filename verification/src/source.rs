//! Reading the derive input from its source text.
//!
//! `syn` reads the item, the path and arguments of each of its attributes,
//! and the tokens of each argument list; this module assembles what it reads
//! into the [`DeriveInput`] model, in verified code.
//!
//! Each reading is named by an uninterpreted function of the text it reads.
//! `proc-macro2` would lex and print with the compiler's implementation inside
//! a running derive and with its own elsewhere, so the readings are made only
//! while an [`OwnLexer`] is held: from [`own_lexer`] to [`release_lexer`],
//! `proc-macro2` is switched to its own implementation in every process, and
//! a reading is a function of the text alone.
use vstd::prelude::*;
use quote::ToTokens;
use syn::Data::{Enum as SynEnum, Struct as SynStruct, Union as SynUnion};
use syn::Fields::{Named as SynNamed, Unit as SynUnit, Unnamed as SynUnnamed};
use self::Shape::{Enum, NamedStruct, TupleStruct, Union, UnitStruct};
use crate::input::{
    Attr, AttrMeta, AttrMetaView, AttrPath, AttrPathView, AttrView, Data, DataView, DeriveInput,
    DeriveInputView, Fields, FieldsView, attr_views, texts,
};
use crate::tokens::Tok;

verus! {

/// The shape of the item: what kind of item it is and, for a struct, how its
/// fields are written.
#[derive(Clone, Copy, Debug, PartialEq, Eq, Structural)]
pub enum Shape {
    NamedStruct,
    TupleStruct,
    UnitStruct,
    Enum,
    Union,
}

/// What `syn` reads of a derive input: its name, the printed text of the
/// inside of each outer attribute (`path(args)`), its shape, and the printed
/// types of its fields (none for an enum or a union).
#[derive(Clone, Debug, PartialEq, Eq)]
pub struct ItemParts {
    pub ident: String,
    pub metas: Vec<String>,
    pub shape: Shape,
    pub field_types: Vec<String>,
}

/// [`ItemParts`] as a mathematical value.
pub ghost struct ItemPartsView {
    pub ident: Seq<char>,
    pub metas: Seq<Seq<char>>,
    pub shape: Shape,
    pub field_types: Seq<Seq<char>>,
}

impl View for ItemParts {
    type V = ItemPartsView;

    open spec fn view(&self) -> ItemPartsView {
        ItemPartsView {
            ident: self.ident@,
            metas: texts(self.metas@),
            shape: self.shape,
            field_types: texts(self.field_types@),
        }
    }
}

/// What follows the path of an attribute: nothing, an argument list (with
/// the printed text of its tokens), or `= value`.
#[derive(Clone, Debug, PartialEq, Eq)]
pub enum MetaKind {
    Path,
    List(String),
    NameValue,
}

/// What `syn` reads of the inside of an attribute.
#[derive(Clone, Debug, PartialEq, Eq)]
pub struct MetaParts {
    pub leading_colon: bool,
    pub segments: Vec<String>,
    pub kind: MetaKind,
}

/// [`MetaKind`] as a mathematical value.
pub ghost enum MetaKindView {
    Path,
    List(Seq<char>),
    NameValue,
}

/// [`MetaParts`] as a mathematical value.
pub ghost struct MetaPartsView {
    pub leading_colon: bool,
    pub segments: Seq<Seq<char>>,
    pub kind: MetaKindView,
}

impl View for MetaParts {
    type V = MetaPartsView;

    open spec fn view(&self) -> MetaPartsView {
        MetaPartsView {
            leading_colon: self.leading_colon,
            segments: texts(self.segments@),
            kind: match self.kind {
                MetaKind::Path => MetaKindView::Path,
                MetaKind::List(t) => MetaKindView::List(t@),
                MetaKind::NameValue => MetaKindView::NameValue,
            },
        }
    }
}

/// Held while `proc-macro2` is switched to its own lexer and printer; the
/// readings below take it to show that they run under that switch.
struct OwnLexer {
    in_use: (),
}

/// Calls `proc_macro2::fallback::force()`, which makes `proc-macro2` lex and
/// print with its own implementation (not the compiler's) until
/// `proc_macro2::fallback::unforce()` is called.  Nothing is claimed of it
/// beyond handing out the evidence.
#[verifier::external_body]
fn own_lexer() -> OwnLexer {
    proc_macro2::fallback::force();
    OwnLexer { in_use: () }
}

/// Calls `proc_macro2::fallback::unforce()`, which gives `proc-macro2` back
/// the compiler's implementation where one is available.  Nothing is claimed
/// of it.
#[verifier::external_body]
fn release_lexer(lexer: OwnLexer) {
    let OwnLexer { in_use: () } = lexer;
    proc_macro2::fallback::unforce();
}

/// What `syn::parse_str::<syn::DeriveInput>` makes of `text`, lexed and
/// printed by `proc-macro2`'s own implementation, as
/// [`ItemParts`], or the message of its error.
pub uninterp spec fn syn_item(text: Seq<char>) -> Result<ItemPartsView, Seq<char>>;

/// What `syn::parse_str::<syn::Meta>` makes of `text`, lexed and printed by
/// `proc-macro2`'s own implementation, as [`MetaParts`], or the message of
/// its error.
pub uninterp spec fn syn_meta(text: Seq<char>) -> Result<MetaPartsView, Seq<char>>;

/// The top-level token trees that `proc-macro2`'s own lexer reads from
/// `text` (each printed by its own printer), or the message of its lexing
/// error.
pub uninterp spec fn lexed_tokens(text: Seq<char>) -> Result<Seq<Tok>, Seq<char>>;

/// Calls `syn::parse_str::<syn::DeriveInput>` on `text` and keeps what the
/// derive reads: the name, each attribute's `meta` printed as text, the
/// shape of the data (one arm per variant of `syn::Data` / `syn::Fields`)
/// and each field's type printed as text; or the `syn::Error` as text.
/// The contract claims only that this is the named reading of the text,
/// which holds while `proc-macro2` uses its own implementation (`_lexer`).
#[verifier::external_body]
fn parse_item_parts(text: &str, _lexer: &OwnLexer) -> (r: Result<ItemParts, String>)
    ensures
        match r {
            Ok(p) => syn_item(text@) == Ok::<ItemPartsView, Seq<char>>(p@),
            Err(m) => syn_item(text@) == Err::<ItemPartsView, Seq<char>>(m@),
        },
{
    let d: syn::DeriveInput = syn::parse_str(text).map_err(|e| e.to_string())?;
    let (shape, field_types) = match &d.data {
        SynStruct(s) => (match &s.fields {
            SynNamed(_) => NamedStruct,
            SynUnnamed(_) => TupleStruct,
            SynUnit => UnitStruct,
        }, s.fields.iter().map(|f| f.ty.to_token_stream().to_string()).collect()),
        SynEnum(_) => (Enum, Vec::new()),
        SynUnion(_) => (Union, Vec::new()),
    };
    let metas = d.attrs.iter().map(|a| a.meta.to_token_stream().to_string()).collect();
    Ok(ItemParts { ident: d.ident.to_string(), metas, shape, field_types })
}

/// Calls `syn::parse_str::<syn::Meta>` on `text` and keeps whether the path
/// starts with `::`, its segments, and what follows it (one arm per variant
/// of `syn::Meta`, an argument list kept as the printed text of its tokens);
/// or the `syn::Error` as text.  The contract claims only that this is the
/// named reading of the text, which holds while `proc-macro2` uses its own
/// implementation (`_lexer`).
#[verifier::external_body]
fn parse_meta_parts(text: &str, _lexer: &OwnLexer) -> (r: Result<MetaParts, String>)
    ensures
        match r {
            Ok(p) => syn_meta(text@) == Ok::<MetaPartsView, Seq<char>>(p@),
            Err(m) => syn_meta(text@) == Err::<MetaPartsView, Seq<char>>(m@),
        },
{
    let meta = syn::parse_str::<syn::Meta>(text).map_err(|e| e.to_string())?;
    let kind = match &meta {
        syn::Meta::Path(_) => MetaKind::Path,
        syn::Meta::List(l) => MetaKind::List(l.tokens.to_string()),
        syn::Meta::NameValue(_) => MetaKind::NameValue,
    };
    let path = meta.path();
    let segments = path.segments.iter().map(|s| s.ident.to_string()).collect();
    Ok(MetaParts { leading_colon: path.leading_colon.is_some(), segments, kind })
}

/// Lexes `text` with `proc_macro2::TokenStream::from_str` and converts each
/// top-level token tree to a [`Tok`] (one arm per variant of
/// `proc_macro2::TokenTree`); or the `LexError` as text.  The contract claims
/// only that this is the named reading of the text, which holds while
/// `proc-macro2` uses its own implementation (`_lexer`).
#[verifier::external_body]
fn lex_tokens(text: &str, _lexer: &OwnLexer) -> (r: Result<Vec<Tok>, String>)
    ensures
        match r {
            Ok(t) => lexed_tokens(text@) == Ok::<Seq<Tok>, Seq<char>>(t@),
            Err(m) => lexed_tokens(text@) == Err::<Seq<Tok>, Seq<char>>(m@),
        },
{
    let stream = text.parse::<proc_macro2::TokenStream>().map_err(|e| e.to_string())?;
    Ok(stream.into_iter().map(|tt| match tt {
        proc_macro2::TokenTree::Ident(i) => Tok::Ident(i.to_string()),
        proc_macro2::TokenTree::Punct(p) => Tok::Punct { ch: p.as_char(), joint: p.spacing() == proc_macro2::Spacing::Joint },
        proc_macro2::TokenTree::Literal(l) => Tok::Literal(l.to_string()),
        proc_macro2::TokenTree::Group(g) => Tok::Group(g.to_string()),
    }).collect())
}

/// The data of an item with this shape and these field types.
pub open spec fn data_of(shape: Shape, field_types: Seq<Seq<char>>) -> DataView {
    match shape {
        Shape::NamedStruct => DataView::Struct(FieldsView::Named(field_types)),
        Shape::TupleStruct => DataView::Struct(FieldsView::Unnamed(field_types)),
        Shape::UnitStruct => DataView::Struct(FieldsView::Unit),
        Shape::Enum => DataView::Enum,
        Shape::Union => DataView::Union,
    }
}

/// The attribute whose inside is the text `meta`.
pub open spec fn attr_model(meta: Seq<char>) -> Result<AttrView, Seq<char>> {
    match syn_meta(meta) {
        Err(m) => Err(m),
        Ok(p) => {
            let path = AttrPathView { leading_colon: p.leading_colon, segments: p.segments };
            match p.kind {
                MetaKindView::Path => Ok(AttrView { path, meta: AttrMetaView::Path }),
                MetaKindView::NameValue => Ok(AttrView { path, meta: AttrMetaView::NameValue }),
                MetaKindView::List(args) => match lexed_tokens(args) {
                    Err(m) => Err(m),
                    Ok(toks) => Ok(AttrView { path, meta: AttrMetaView::List(toks) }),
                },
            }
        },
    }
}

/// The attributes whose insides are the texts `metas`, in order; the first
/// that cannot be read stops the reading.
pub open spec fn attrs_model(metas: Seq<Seq<char>>) -> Result<Seq<AttrView>, Seq<char>>
    decreases metas.len(),
{
    if metas.len() == 0 {
        Ok(Seq::empty())
    } else {
        match attrs_model(metas.drop_last()) {
            Err(m) => Err(m),
            Ok(prev) => match attr_model(metas.last()) {
                Err(m) => Err(m),
                Ok(a) => Ok(prev.push(a)),
            },
        }
    }
}

/// The derive input written as `text`, or why it cannot be read.
pub open spec fn input_model(text: Seq<char>) -> Result<DeriveInputView, Seq<char>> {
    match syn_item(text) {
        Err(m) => Err(m),
        Ok(p) => match attrs_model(p.metas) {
            Err(m) => Err(m),
            Ok(attrs) => Ok(
                DeriveInputView { ident: p.ident, attrs, data: data_of(p.shape, p.field_types) },
            ),
        },
    }
}

/// Reads one attribute from the text of its inside.
fn read_attr(meta: &str, lexer: &OwnLexer) -> (r: Result<Attr, String>)
    ensures
        match r {
            Ok(a) => attr_model(meta@) == Ok::<AttrView, Seq<char>>(a@),
            Err(m) => attr_model(meta@) == Err::<AttrView, Seq<char>>(m@),
        },
{
    let parts = parse_meta_parts(meta, lexer)?;
    let path = AttrPath { leading_colon: parts.leading_colon, segments: parts.segments };
    let meta = match parts.kind {
        MetaKind::Path => AttrMeta::Path,
        MetaKind::NameValue => AttrMeta::NameValue,
        MetaKind::List(args) => AttrMeta::List(lex_tokens(args.as_str(), lexer)?),
    };
    Ok(Attr { path, meta })
}

/// Once the attributes up to some point cannot be read, the whole list
/// cannot, with the same message.
proof fn lemma_unreadable_persists(metas: Seq<Seq<char>>, k: int)
    requires
        0 <= k <= metas.len(),
        attrs_model(metas.take(k)) is Err,
    ensures
        attrs_model(metas) == attrs_model(metas.take(k)),
    decreases metas.len() - k,
{
    if k < metas.len() {
        assert(metas.take(k + 1).drop_last() =~= metas.take(k));
        lemma_unreadable_persists(metas, k + 1);
    } else {
        assert(metas.take(k) =~= metas);
    }
}

/// Reads the derive input written as `text`, with `proc-macro2`'s own lexer
/// and printer in use for the whole reading.
pub fn read_derive_input(text: &str) -> (r: Result<DeriveInput, String>)
    ensures
        match r {
            Ok(ast) => input_model(text@) == Ok::<DeriveInputView, Seq<char>>(ast@),
            Err(m) => input_model(text@) == Err::<DeriveInputView, Seq<char>>(m@),
        },
{
    let lexer = own_lexer();
    let r = read_with(text, &lexer);
    release_lexer(lexer);
    r
}

/// Reads the derive input written as `text`.
fn read_with(text: &str, lexer: &OwnLexer) -> (r: Result<DeriveInput, String>)
    ensures
        match r {
            Ok(ast) => input_model(text@) == Ok::<DeriveInputView, Seq<char>>(ast@),
            Err(m) => input_model(text@) == Err::<DeriveInputView, Seq<char>>(m@),
        },
{
    let parts = parse_item_parts(text, lexer)?;
    let ghost metas = texts(parts.metas@);
    let mut attrs: Vec<Attr> = Vec::new();
    let mut k: usize = 0;
    assert(metas.take(0) =~= Seq::<Seq<char>>::empty());
    assert(attr_views(attrs@) =~= Seq::<AttrView>::empty());
    while k < parts.metas.len()
        invariant
            k <= parts.metas@.len(),
            metas == texts(parts.metas@),
            syn_item(text@) == Ok::<ItemPartsView, Seq<char>>(parts@),
            attrs_model(metas.take(k as int)) == Ok::<Seq<AttrView>, Seq<char>>(attr_views(attrs@)),
        decreases parts.metas@.len() - k,
    {
        assert(metas.take(k + 1).drop_last() =~= metas.take(k as int));
        assert(metas.take(k + 1).last() == parts.metas@[k as int]@);
        match read_attr(parts.metas[k].as_str(), lexer) {
            Ok(a) => {
                let ghost before = attrs@;
                attrs.push(a);
                assert(attr_views(attrs@) =~= attr_views(before).push(a@));
            },
            Err(m) => {
                proof {
                    lemma_unreadable_persists(metas, k + 1);
                }
                return Err(m);
            },
        }
        k = k + 1;
    }
    assert(metas.take(k as int) =~= metas);
    let data = match parts.shape {
        Shape::NamedStruct => Data::Struct(Fields::Named(parts.field_types)),
        Shape::TupleStruct => Data::Struct(Fields::Unnamed(parts.field_types)),
        Shape::UnitStruct => Data::Struct(Fields::Unit),
        Shape::Enum => Data::Enum,
        Shape::Union => Data::Union,
    };
    Ok(DeriveInput { ident: parts.ident, attrs, data })
}

} // verus!
