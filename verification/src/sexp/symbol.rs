//! The words of the `sexp` attribute, and the shapes of the types that it is
//! written on.

use vstd::prelude::*;

verus! {

/// A word that may stand inside the `sexp` attribute.
#[derive(Copy, Clone, Debug)]
pub struct Symbol(pub &'static str);

/// The shape of a struct or of a variant of an enum.
#[derive(Copy, Clone, Debug, PartialEq, Eq, Structural)]
pub enum Style {
    /// Named fields.
    Struct,
    /// Many unnamed fields.
    Tuple,
    /// One unnamed field.
    NewType,
    /// No fields.
    Unit,
}

} // verus!
