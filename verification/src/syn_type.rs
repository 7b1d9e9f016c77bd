//! The one question the derive asks the `syn` crate: is this text one Rust type?
use vstd::prelude::*;

verus! {

/// What `syn::parse_str::<syn::Type>` reports on `text`, lexed by
/// `proc-macro2`'s own lexer: `None` when the whole text parses as one Rust
/// type, otherwise the message of the error.  The Rust type grammar is
/// `syn`'s; this library does not restate it.
pub uninterp spec fn syn_type_error(text: Seq<char>) -> Option<Seq<char>>;

/// Calls `syn::parse_str::<syn::Type>` on `text`, between
/// `proc_macro2::fallback::force()` and `unforce()` so that `proc-macro2`'s
/// own lexer reads it wherever the call runs, and keeps only the outcome:
/// `None` when `syn` accepts the whole text as a type, or the `Display` text
/// of the `syn::Error` it returns.  The contract claims no more than that the
/// outcome is the named result for this text.
#[verifier::external_body]
pub(crate) fn check_type_text(text: &str) -> (r: Option<String>)
    ensures
        r is None <==> syn_type_error(text@) is None,
        r matches Some(m) ==> syn_type_error(text@) == Some(m@),
{
    proc_macro2::fallback::force();
    let outcome = match syn::parse_str::<syn::Type>(text) {
        Ok(_) => None,
        Err(e) => Some(e.to_string()),
    };
    proc_macro2::fallback::unforce();
    outcome
}

} // verus!
