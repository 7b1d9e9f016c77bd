//! What the derive reports when it refuses its input, and where.
use vstd::prelude::*;

verus! {

/// Where a refusal points in the derive input.
#[derive(Clone, Copy, Debug, PartialEq, Eq, Structural)]
pub enum ErrorSite {
    /// The name of the item.
    Name,
    /// The fields of the struct.
    Fields,
    /// The whole attribute with this index in the item's attribute list.
    Attribute(usize),
    /// Tokens `start..end` of the argument list of attribute `attr`.
    Tokens { attr: usize, start: usize, end: usize },
    /// The end of the argument list of attribute `attr`.
    EndOfList(usize),
}

/// Why the derive refuses its input.
#[derive(Clone, Debug, PartialEq, Eq)]
pub enum ErrorKind {
    /// The item is not a tuple struct with exactly one field.
    NotNewtype,
    /// A `#[diesel_newtype]` attribute has no arguments.
    EmptyAttribute,
    /// `try_from` is given more than once.
    DuplicateTryFrom,
    /// An argument other than `try_from`.
    UnsupportedKey,
    /// The argument list ends where an argument name should start.
    MissingNestedAttribute,
    /// A literal stands where an argument name should.
    LiteralInsteadOfKey,
    /// Some other token stands where an argument name should.
    TokenInsteadOfKey,
    /// A path segment after `::` is not an identifier.
    ExpectedIdent,
    /// The argument list ends right after `::`.
    MissingIdent,
    /// `try_from` is followed by something other than `,`, `=` or the end.
    ExpectedEq,
    /// The tokens after `try_from =` are not one Rust type; the text is the
    /// type parser's own message.
    InvalidType(String),
}

/// A refusal: what is wrong and where it points.
#[derive(Clone, Debug, PartialEq, Eq)]
pub struct DeriveError {
    pub kind: ErrorKind,
    pub site: ErrorSite,
}

/// [`ErrorKind`] as a mathematical value.
pub ghost enum ErrorKindView {
    NotNewtype,
    EmptyAttribute,
    DuplicateTryFrom,
    UnsupportedKey,
    MissingNestedAttribute,
    LiteralInsteadOfKey,
    TokenInsteadOfKey,
    ExpectedIdent,
    MissingIdent,
    ExpectedEq,
    InvalidType(Seq<char>),
}

/// [`DeriveError`] as a mathematical value.
pub ghost struct DeriveErrorView {
    pub kind: ErrorKindView,
    pub site: ErrorSite,
}

impl View for ErrorKind {
    type V = ErrorKindView;

    open spec fn view(&self) -> ErrorKindView {
        match self {
            ErrorKind::NotNewtype => ErrorKindView::NotNewtype,
            ErrorKind::EmptyAttribute => ErrorKindView::EmptyAttribute,
            ErrorKind::DuplicateTryFrom => ErrorKindView::DuplicateTryFrom,
            ErrorKind::UnsupportedKey => ErrorKindView::UnsupportedKey,
            ErrorKind::MissingNestedAttribute => ErrorKindView::MissingNestedAttribute,
            ErrorKind::LiteralInsteadOfKey => ErrorKindView::LiteralInsteadOfKey,
            ErrorKind::TokenInsteadOfKey => ErrorKindView::TokenInsteadOfKey,
            ErrorKind::ExpectedIdent => ErrorKindView::ExpectedIdent,
            ErrorKind::MissingIdent => ErrorKindView::MissingIdent,
            ErrorKind::ExpectedEq => ErrorKindView::ExpectedEq,
            ErrorKind::InvalidType(m) => ErrorKindView::InvalidType(m@),
        }
    }
}

impl View for DeriveError {
    type V = DeriveErrorView;

    open spec fn view(&self) -> DeriveErrorView {
        DeriveErrorView { kind: self.kind@, site: self.site }
    }
}

/// Builds the view of a refusal.
pub open spec fn refusal(kind: ErrorKindView, site: ErrorSite) -> DeriveErrorView {
    DeriveErrorView { kind, site }
}

/// The message the compiler shows for each kind of refusal.
pub open spec fn message_of(kind: ErrorKindView) -> Seq<char> {
    match kind {
        ErrorKindView::NotNewtype =>
            "#[derive(DieselNewType)] can only be used on a tuple struct with exactly one field, e.g. `struct Foo(i64);`"@,
        ErrorKindView::EmptyAttribute =>
            "empty `#[diesel_newtype]` does nothing; write `#[diesel_newtype(try_from = Type)]`"@,
        ErrorKindView::DuplicateTryFrom => "duplicate `try_from` in #[diesel_newtype(...)]"@,
        ErrorKindView::UnsupportedKey =>
            "unsupported #[diesel_newtype(...)] key, expected `try_from` or `try_from = Type`"@,
        ErrorKindView::MissingNestedAttribute => "unexpected end of input, expected nested attribute"@,
        ErrorKindView::LiteralInsteadOfKey => "unexpected literal in nested attribute, expected ident"@,
        ErrorKindView::TokenInsteadOfKey => "unexpected token in nested attribute, expected ident"@,
        ErrorKindView::ExpectedIdent => "expected ident"@,
        ErrorKindView::MissingIdent => "unexpected end of input, expected ident"@,
        ErrorKindView::ExpectedEq => "expected `=`"@,
        ErrorKindView::InvalidType(m) => m,
    }
}

impl ErrorKind {
    /// The message the compiler shows for this refusal.
    pub fn message(&self) -> (r: String)
        ensures
            r@ == message_of(self@),
    {
        match self {
            ErrorKind::NotNewtype => "#[derive(DieselNewType)] can only be used on a tuple struct with exactly one field, e.g. `struct Foo(i64);`".to_owned(),
            ErrorKind::EmptyAttribute => "empty `#[diesel_newtype]` does nothing; write `#[diesel_newtype(try_from = Type)]`".to_owned(),
            ErrorKind::DuplicateTryFrom => "duplicate `try_from` in #[diesel_newtype(...)]".to_owned(),
            ErrorKind::UnsupportedKey => "unsupported #[diesel_newtype(...)] key, expected `try_from` or `try_from = Type`".to_owned(),
            ErrorKind::MissingNestedAttribute => "unexpected end of input, expected nested attribute".to_owned(),
            ErrorKind::LiteralInsteadOfKey => "unexpected literal in nested attribute, expected ident".to_owned(),
            ErrorKind::TokenInsteadOfKey => "unexpected token in nested attribute, expected ident".to_owned(),
            ErrorKind::ExpectedIdent => "expected ident".to_owned(),
            ErrorKind::MissingIdent => "unexpected end of input, expected ident".to_owned(),
            ErrorKind::ExpectedEq => "expected `=`".to_owned(),
            ErrorKind::InvalidType(m) => m.clone(),
        }
    }
}

} // verus!
