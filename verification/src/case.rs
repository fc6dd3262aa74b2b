//! Case conversion of identifiers.
//!
//! Word segmentation follows Unicode rules that take pages to state, so the
//! converted texts are named here and computed by the `heck` crate.

use vstd::prelude::*;

verus! {

/// The snake-case form of a text, as `heck` computes it.
pub uninterp spec fn snake_case(s: Seq<char>) -> Seq<char>;

/// The camel-case form of a text (first letter of each word in upper case), as
/// `heck` computes it.
pub uninterp spec fn camel_case(s: Seq<char>) -> Seq<char>;

/// Calls `heck::SnakeCase::to_snake_case`; the result is a function of the text
/// alone and is what [`snake_case`] names.
#[verifier::external_body]
pub(crate) fn to_snake_case(s: &str) -> (r: String)
    ensures
        r@ == snake_case(s@),
{
    heck::SnakeCase::to_snake_case(s)
}

/// Calls `heck::CamelCase::to_camel_case`; the result is a function of the text
/// alone and is what [`camel_case`] names.
#[verifier::external_body]
pub(crate) fn to_camel_case(s: &str) -> (r: String)
    ensures
        r@ == camel_case(s@),
{
    heck::CamelCase::to_camel_case(s)
}

} // verus!
