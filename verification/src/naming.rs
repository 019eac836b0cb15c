//! Names of the derived items.
//!
//! Every derived name is a fixed prefix or suffix around either the name of
//! the sum type or the snake_case form of a variant identifier.

use convert_case::{Case, Casing};
use vstd::prelude::*;

verus! {

/// The snake_case form of an identifier: what `convert_case` makes of it
/// with `Case::Snake` and its default word boundaries.
///
/// Words end at underscores, hyphens and spaces, at a change from lower to
/// upper case, between letters and digits, and before the last capital of a
/// run of capitals that a lowercase letter follows. Each word is lowercased
/// and the words are joined with underscores: `UnnamedFields` becomes
/// `unnamed_fields`, and `Vector4D` becomes `vector_4_d`.
pub uninterp spec fn snake_case(ident: Seq<char>) -> Seq<char>;

/// Converts an identifier to snake_case.
///
/// Trusted: the body calls `convert_case::Casing::to_case` with
/// `Case::Snake`, and the contract is not proved. It claims one thing of
/// that call: the result depends on the characters of the identifier and on
/// nothing else, which is why [`snake_case`] can name it. The conversion
/// works on the text alone, keeps no state and fails on no input.
#[verifier::external_body]
pub(crate) fn to_snake_case(ident: &str) -> (snake: String)
    ensures
        snake@ == snake_case(ident@),
{
    ident.to_case(Case::Snake)
}

/// `<name>Kind`: the name of the kind type derived for the sum type `name`.
pub open spec fn kind_type_name_of(name: Seq<char>) -> Seq<char> {
    name + "Kind"@
}

/// `is_<snake>`: the name of the predicate of a variant.
pub open spec fn predicate_name_of(snake: Seq<char>) -> Seq<char> {
    "is_"@ + snake
}

/// `as_<snake>`: the name of the borrowing accessor of a variant.
pub open spec fn borrow_name_of(snake: Seq<char>) -> Seq<char> {
    "as_"@ + snake
}

/// `as_<snake>_mut`: the name of the mutably borrowing accessor of a variant.
pub open spec fn borrow_mut_name_of(snake: Seq<char>) -> Seq<char> {
    "as_"@ + snake + "_mut"@
}

/// `into_<snake>`: the name of the consuming accessor of a variant.
pub open spec fn consume_name_of(snake: Seq<char>) -> Seq<char> {
    "into_"@ + snake
}

/// Name of the kind type derived for the sum type `name`.
pub fn kind_type_name(name: &str) -> (out: String)
    ensures
        out@ == kind_type_name_of(name@),
{
    String::from_str(name).concat("Kind")
}

/// Name of the predicate of the variant whose snake_case form is `snake`.
pub fn predicate_name(snake: &str) -> (out: String)
    ensures
        out@ == predicate_name_of(snake@),
{
    String::from_str("is_").concat(snake)
}

/// Name of the borrowing accessor of the variant whose snake_case form is
/// `snake`.
pub fn borrow_name(snake: &str) -> (out: String)
    ensures
        out@ == borrow_name_of(snake@),
{
    String::from_str("as_").concat(snake)
}

/// Name of the mutably borrowing accessor of the variant whose snake_case
/// form is `snake`.
pub fn borrow_mut_name(snake: &str) -> (out: String)
    ensures
        out@ == borrow_mut_name_of(snake@),
{
    String::from_str("as_").concat(snake).concat("_mut")
}

/// Name of the consuming accessor of the variant whose snake_case form is
/// `snake`.
pub fn consume_name(snake: &str) -> (out: String)
    ensures
        out@ == consume_name_of(snake@),
{
    String::from_str("into_").concat(snake)
}

} // verus!
