//! Why a generation pass stops.

use vstd::prelude::*;

verus! {

/// A defect of the registry that ends the pass: nothing is generated from a
/// node that has one.
#[derive(Clone, Copy, Debug, PartialEq, Eq, Structural)]
pub enum GenError {
    /// An embedded expression is none of the supported literal forms.
    Expression,
    /// A fixed-size array field gives neither a size nor a size constant.
    ArraySize,
    /// A constant has no number, no hexadecimal text, no bit position and no
    /// expression.
    NoValue,
    /// A bit position lies beyond the 64 bits of a word.
    BitPosition,
    /// A constant of this form has no scalar type.
    Untyped,
    /// A name is shorter than the prefix that is stripped from it.
    ShortName,
    /// A version text holds no `0` at which to cut it.
    Version,
    /// Two constants of one enumeration come to the same identifier.
    DuplicateIdentifier,
}

} // verus!
