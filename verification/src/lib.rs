//! Companion declarations for tagged-union types.
//!
//! Given the structural description of a sum type, this crate derives a
//! payload-free "kind" enumeration that mirrors the variant tags, and an
//! implementation block with a tag-extraction method, one predicate per
//! variant and, for every variant with exactly one positional field, a
//! borrowing, a mutably borrowing and a consuming accessor.
//!
//! [`nice_enum_impl`] is the whole transformation, from a description to the
//! source text of the derived declarations. [`emit::expand`] stops at the
//! structured form of the declarations, and [`semantics`] says what the
//! derived methods compute on the values of the sum type.

use crate::emit::{expand, expansion};
use crate::render::expansion_text;
use crate::schema::SumTypeDecl;
use vstd::prelude::*;

pub mod classify;
pub mod emit;
pub mod laws;
pub mod naming;
pub mod render;
pub mod schema;
pub mod semantics;

verus! {

/// Derives the companion declarations of a sum type and returns them as
/// source text: the kind type, then the implementation block.
///
/// The description must be that of a tagged union. Method names go through
/// [`naming::snake_case`], so the text is the rendering of
/// [`emit::expansion`] of the description.
pub fn nice_enum_impl(input: SumTypeDecl) -> (out: String)
    requires
        input@.is_enum(),
    ensures
        out@ == expansion_text(expansion(input@)),
{
    expand(&input).render()
}

} // verus!
