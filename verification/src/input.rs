//! A plain model of the item that the derive is applied to.
use vstd::prelude::*;
use crate::tokens::Tok;

verus! {

/// The fields of a struct; each field is given by the printed text of its type.
#[derive(Clone, Debug, PartialEq, Eq)]
pub enum Fields {
    /// `struct S { a: A, b: B }`
    Named(Vec<String>),
    /// `struct S(A, B);`
    Unnamed(Vec<String>),
    /// `struct S;`
    Unit,
}

/// What kind of item the derive is applied to.
#[derive(Clone, Debug, PartialEq, Eq)]
pub enum Data {
    Struct(Fields),
    Enum,
    Union,
}

/// The path of an attribute, `#[a::b(..)]`: its segments and whether it
/// starts with `::`.
#[derive(Clone, Debug, PartialEq, Eq)]
pub struct AttrPath {
    pub leading_colon: bool,
    pub segments: Vec<String>,
}

/// What follows the path of an attribute.
#[derive(Clone, Debug, PartialEq, Eq)]
pub enum AttrMeta {
    /// `#[path]`
    Path,
    /// `#[path(tokens)]` (or with `[]` / `{}`), with the tokens inside.
    List(Vec<Tok>),
    /// `#[path = value]`
    NameValue,
}

/// One outer attribute of the item.
#[derive(Clone, Debug, PartialEq, Eq)]
pub struct Attr {
    pub path: AttrPath,
    pub meta: AttrMeta,
}

/// The item that the derive is applied to.
#[derive(Clone, Debug, PartialEq, Eq)]
pub struct DeriveInput {
    /// The name of the item.
    pub ident: String,
    /// Its outer attributes, in order.
    pub attrs: Vec<Attr>,
    /// Its body.
    pub data: Data,
}

/// The printed texts of a list of strings.
pub open spec fn texts(s: Seq<String>) -> Seq<Seq<char>> {
    s.map_values(|t: String| t@)
}

/// [`Fields`] as a mathematical value.
pub ghost enum FieldsView {
    Named(Seq<Seq<char>>),
    Unnamed(Seq<Seq<char>>),
    Unit,
}

/// [`Data`] as a mathematical value.
pub ghost enum DataView {
    Struct(FieldsView),
    Enum,
    Union,
}

/// [`AttrPath`] as a mathematical value.
pub ghost struct AttrPathView {
    pub leading_colon: bool,
    pub segments: Seq<Seq<char>>,
}

/// [`AttrMeta`] as a mathematical value.
pub ghost enum AttrMetaView {
    Path,
    List(Seq<Tok>),
    NameValue,
}

/// [`Attr`] as a mathematical value.
pub ghost struct AttrView {
    pub path: AttrPathView,
    pub meta: AttrMetaView,
}

/// [`DeriveInput`] as a mathematical value.
pub ghost struct DeriveInputView {
    pub ident: Seq<char>,
    pub attrs: Seq<AttrView>,
    pub data: DataView,
}

impl View for Fields {
    type V = FieldsView;

    open spec fn view(&self) -> FieldsView {
        match self {
            Fields::Named(t) => FieldsView::Named(texts(t@)),
            Fields::Unnamed(t) => FieldsView::Unnamed(texts(t@)),
            Fields::Unit => FieldsView::Unit,
        }
    }
}

impl View for Data {
    type V = DataView;

    open spec fn view(&self) -> DataView {
        match self {
            Data::Struct(f) => DataView::Struct(f@),
            Data::Enum => DataView::Enum,
            Data::Union => DataView::Union,
        }
    }
}

impl View for AttrPath {
    type V = AttrPathView;

    open spec fn view(&self) -> AttrPathView {
        AttrPathView { leading_colon: self.leading_colon, segments: texts(self.segments@) }
    }
}

impl View for AttrMeta {
    type V = AttrMetaView;

    open spec fn view(&self) -> AttrMetaView {
        match self {
            AttrMeta::Path => AttrMetaView::Path,
            AttrMeta::List(t) => AttrMetaView::List(t@),
            AttrMeta::NameValue => AttrMetaView::NameValue,
        }
    }
}

impl View for Attr {
    type V = AttrView;

    open spec fn view(&self) -> AttrView {
        AttrView { path: self.path@, meta: self.meta@ }
    }
}

/// The views of a list of attributes.
pub open spec fn attr_views(s: Seq<Attr>) -> Seq<AttrView> {
    s.map_values(|a: Attr| a@)
}

impl View for DeriveInput {
    type V = DeriveInputView;

    open spec fn view(&self) -> DeriveInputView {
        DeriveInputView { ident: self.ident@, attrs: attr_views(self.attrs@), data: self.data@ }
    }
}

} // verus!
