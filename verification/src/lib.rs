//! Verified core of the `DieselNewType` derive.
//!
//! The derive turns a single-field tuple struct into a Diesel newtype: it
//! checks the shape of the item, reads the optional
//! `#[diesel_newtype(try_from ...)]` attribute and writes the Diesel impls
//! for the type as Rust source text.  Each of these steps is a verified
//! function over a plain model of the derive input (see [`input`] and
//! [`tokens`]).

pub mod tokens;
pub mod error;
pub mod input;
pub mod syn_type;
pub mod attr;
pub mod codegen;
pub mod source;
pub mod expand;

pub use expand::diesel_new_type;
