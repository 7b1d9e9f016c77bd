//! The derive as a whole: check the item, read its attribute, write the impls.
use vstd::prelude::*;
use crate::attr::{TryFromAttr, TryFromView, parse_attrs, parse_try_from};
use crate::codegen::{
    contains_text, expansion_text, from_sql_text, gen_impls, opt_view, queryable_text, tosql_text,
};
use crate::error::{DeriveError, DeriveErrorView, ErrorKind, ErrorKindView, ErrorSite, refusal};
use crate::source::{input_model, read_derive_input};
use crate::input::{Data, DataView, DeriveInput, DeriveInputView, Fields, FieldsView};

verus! {

/// The type of the one field of a single-field tuple struct; `None` for any
/// other item.
pub open spec fn newtype_field(data: DataView) -> Option<Seq<char>> {
    match data {
        DataView::Struct(FieldsView::Unnamed(tys)) => if tys.len() == 1 {
            Some(tys[0])
        } else {
            None
        },
        _ => None,
    }
}

/// Where the refusal of an item that is not a newtype points: at its name
/// for an enum, a union or a unit struct (there are no fields to point at),
/// at its fields otherwise.
pub open spec fn shape_error_site(data: DataView) -> ErrorSite {
    match data {
        DataView::Struct(FieldsView::Unit) => ErrorSite::Name,
        DataView::Struct(_) => ErrorSite::Fields,
        _ => ErrorSite::Name,
    }
}

/// The type that the read path deserializes, if it converts: none without
/// `try_from`, the field type for a bare `try_from`, the given type otherwise.
pub open spec fn read_source(try_from: TryFromView, wrapped: Seq<char>) -> Option<Seq<char>> {
    match try_from {
        TryFromView::Absent => None,
        TryFromView::Bare => Some(wrapped),
        TryFromView::InnerType(t) => Some(t),
    }
}

/// What the derive produces for an item: the text of the impls, or the
/// refusal.  The shape of the item is checked before its attributes.
pub open spec fn derive_result(ast: DeriveInputView) -> Result<Seq<char>, DeriveErrorView> {
    match newtype_field(ast.data) {
        None => Err(refusal(ErrorKindView::NotNewtype, shape_error_site(ast.data))),
        Some(w) => match parse_attrs(ast.attrs) {
            Err(e) => Err(e),
            Ok(t) => Ok(expansion_text(ast.ident, w, read_source(t, w))),
        },
    }
}

/// Returns the type of the field of a single-field tuple struct, and refuses
/// every other item (enums, unions, unit structs, structs with named fields
/// or with another number of fields).
pub fn validate_wrapped_type(ast: &DeriveInput) -> (r: Result<&String, DeriveError>)
    ensures
        match r {
            Ok(t) => newtype_field(ast.data@) == Some(t@),
            Err(e) => newtype_field(ast.data@) is None && e@ == refusal(
                ErrorKindView::NotNewtype,
                shape_error_site(ast.data@),
            ),
        },
{
    match &ast.data {
        Data::Struct(Fields::Unnamed(tys)) => {
            if tys.len() == 1 {
                Ok(&tys[0])
            } else {
                Err(DeriveError { kind: ErrorKind::NotNewtype, site: ErrorSite::Fields })
            }
        },
        Data::Struct(Fields::Unit) => Err(DeriveError { kind: ErrorKind::NotNewtype, site: ErrorSite::Name }),
        Data::Struct(_) => Err(DeriveError { kind: ErrorKind::NotNewtype, site: ErrorSite::Fields }),
        _ => Err(DeriveError { kind: ErrorKind::NotNewtype, site: ErrorSite::Name }),
    }
}

/// Runs the derive on an item: the source text of its Diesel impls, or why
/// the item is refused.
pub fn expand_sql_types(ast: &DeriveInput) -> (r: Result<String, DeriveError>)
    ensures
        match r {
            Ok(code) => derive_result(ast@) == Ok::<Seq<char>, DeriveErrorView>(code@),
            Err(e) => derive_result(ast@) == Err::<Seq<char>, DeriveErrorView>(e@),
        },
{
    let wrapped_ty = validate_wrapped_type(ast)?;
    let try_from = parse_try_from(&ast.attrs)?;
    let code = match &try_from {
        TryFromAttr::Absent => gen_impls(ast.ident.as_str(), wrapped_ty.as_str(), None),
        TryFromAttr::Bare => gen_impls(ast.ident.as_str(), wrapped_ty.as_str(), Some(wrapped_ty.as_str())),
        TryFromAttr::InnerType(t) => gen_impls(ast.ident.as_str(), wrapped_ty.as_str(), Some(t.as_str())),
    };
    Ok(code)
}

/// Why the derive produces no impls for a source text.
#[derive(Clone, Debug, PartialEq, Eq)]
pub enum DeriveFailure {
    /// The text is not an item the derive can read; the text is the reader's
    /// own message.
    Syntax(String),
    /// The item is read but refused.
    Refused(DeriveError),
}

/// [`DeriveFailure`] as a mathematical value.
pub ghost enum DeriveFailureView {
    Syntax(Seq<char>),
    Refused(DeriveErrorView),
}

impl View for DeriveFailure {
    type V = DeriveFailureView;

    open spec fn view(&self) -> DeriveFailureView {
        match self {
            DeriveFailure::Syntax(m) => DeriveFailureView::Syntax(m@),
            DeriveFailure::Refused(e) => DeriveFailureView::Refused(e@),
        }
    }
}

/// What the derive produces for the item written as `text`.
pub open spec fn derive_from_text(text: Seq<char>) -> Result<Seq<char>, DeriveFailureView> {
    match input_model(text) {
        Err(m) => Err(DeriveFailureView::Syntax(m)),
        Ok(ast) => match derive_result(ast) {
            Ok(code) => Ok(code),
            Err(e) => Err(DeriveFailureView::Refused(e)),
        },
    }
}

/// `#[derive(DieselNewType)]` on the item written as `text`: the source text
/// of its `ToSql`, `AsExpression`, `FromSql`, `Queryable` and `QueryId`
/// impls, or why there are none.
pub fn diesel_new_type(text: &str) -> (r: Result<String, DeriveFailure>)
    ensures
        match r {
            Ok(code) => derive_from_text(text@) == Ok::<Seq<char>, DeriveFailureView>(code@),
            Err(f) => derive_from_text(text@) == Err::<Seq<char>, DeriveFailureView>(f@),
        },
{
    let ast = match read_derive_input(text) {
        Ok(ast) => ast,
        Err(m) => return Err(DeriveFailure::Syntax(m)),
    };
    match expand_sql_types(&ast) {
        Ok(code) => Ok(code),
        Err(e) => Err(DeriveFailure::Refused(e)),
    }
}

/// A bare `try_from` is shorthand for `try_from = <field type>`: two
/// newtypes with the same name and field, one whose attributes select the
/// bare form and one whose attributes select the field's type (as printed),
/// are both derived, to the same code.
pub proof fn bare_try_from_is_shorthand(bare: DeriveInputView, typed: DeriveInputView)
    requires
        bare.ident == typed.ident,
        bare.data == typed.data,
        newtype_field(bare.data) is Some,
        parse_attrs(bare.attrs) == Ok::<TryFromView, DeriveErrorView>(TryFromView::Bare),
        parse_attrs(typed.attrs) == Ok::<TryFromView, DeriveErrorView>(
            TryFromView::InnerType(newtype_field(bare.data)->Some_0),
        ),
    ensures
        derive_result(bare) is Ok,
        derive_result(bare) == derive_result(typed),
{
}

/// Whatever newtype the derive accepts, its output holds the `ToSql` impl
/// for the field type and the `FromSql` and `Queryable` impls for the read
/// type that its attributes choose.
pub proof fn derived_code_holds_read_and_write_impls(ast: DeriveInputView)
    ensures
        derive_result(ast) matches Ok(code) ==> {
            let w = newtype_field(ast.data)->Some_0;
            let src = read_source(parse_attrs(ast.attrs)->Ok_0, w);
            &&& contains_text(code, tosql_text(ast.ident, w))
            &&& contains_text(code, from_sql_text(ast.ident, w, src))
            &&& contains_text(code, queryable_text(ast.ident, w, src))
        },
{
    if let Some(w) = newtype_field(ast.data) {
        if let Ok(t) = parse_attrs(ast.attrs) {
            crate::codegen::expansion_contains_each_impl(ast.ident, w, read_source(t, w));
        }
    }
}

/// The value read from the database is converted with `try_into` exactly
/// when `try_from` is given; without it the newtype wraps the value read,
/// which has the field's type.
pub proof fn conversion_only_with_try_from(try_from: TryFromView, wrapped: Seq<char>)
    ensures
        read_source(try_from, wrapped) is None <==> try_from is Absent,
        try_from is Absent ==> crate::codegen::read_type(wrapped, read_source(try_from, wrapped))
            == wrapped,
{
}

/// The shape of the item is checked first: an item that is not a
/// single-field tuple struct is refused as such whatever its attributes, and
/// a newtype is refused only for what its attributes hold.
pub proof fn shape_is_checked_first(ast: DeriveInputView)
    ensures
        newtype_field(ast.data) is None ==> derive_result(ast) == Err::<Seq<char>, DeriveErrorView>(
            refusal(ErrorKindView::NotNewtype, shape_error_site(ast.data)),
        ),
        newtype_field(ast.data) is Some ==> (derive_result(ast) is Err <==> parse_attrs(ast.attrs) is Err),
        newtype_field(ast.data) is Some && derive_result(ast) is Err ==> derive_result(ast)->Err_0
            == parse_attrs(ast.attrs)->Err_0,
{
}

} // verus!
