//! What the derived methods compute.
//!
//! The derived declarations are data; this module gives them a meaning. A
//! value of a sum type is modelled by the index of its variant and the values
//! of its payload fields, and [`call`] says what a derived method yields on
//! such a value. Patterns are read as the host language reads them: a pattern
//! that does not fit the shape of the variant it names matches nothing.

use crate::classify::{MatchPatternView, PayloadPattern, TagRefView};
use crate::emit::{tag_method_name, ImplBlockView, MethodBodyView, MethodView, TagArmView};
use crate::schema::{SumTypeDeclView, VariantDeclView};
use vstd::prelude::*;

verus! {

/// A value of a sum type: which variant it is, by position in the
/// declaration, and what its payload fields hold, in order.
pub struct Instance<V> {
    pub variant: int,
    pub payload: Seq<V>,
}

impl<V> Instance<V> {
    /// Whether this is a value of the sum type `decl`: its variant is one of
    /// the declared ones and its payload has as many fields as that variant.
    pub open spec fn inhabits(self, decl: SumTypeDeclView) -> bool {
        &&& decl.is_enum()
        &&& 0 <= self.variant < decl.variants().len()
        &&& self.payload.len() == decl.variants()[self.variant].shape.arity()
    }

    /// The value with its first payload field replaced by `value`: what is
    /// left behind after a write through the reference that a mutably
    /// borrowing accessor hands out.
    pub open spec fn with_field(self, value: V) -> Instance<V> {
        Instance { variant: self.variant, payload: self.payload.update(0, value) }
    }
}

/// What a derived method yields.
pub enum Outcome<V> {
    /// A case of the kind type.
    Tag(TagRefView),
    /// A truth value.
    Flag(bool),
    /// The payload field, or nothing.
    Field(Option<V>),
    /// Nothing at all: no arm covers the value.
    Stuck,
}

/// Whether `pattern` matches the values of `variant`.
pub open spec fn pattern_matches(pattern: MatchPatternView, variant: VariantDeclView) -> bool {
    &&& pattern.variant == variant.identifier
    &&& match pattern.payload {
        PayloadPattern::Exact => variant.shape is Empty,
        PayloadPattern::NamedWildcard => true,
        PayloadPattern::SingleBinding => variant.shape is UnnamedFields && variant.shape.arity()
            == 1,
        PayloadPattern::TupleWildcard => variant.shape is UnnamedFields,
    }
}

/// The tag of the first arm whose pattern matches the values of `variant`.
pub open spec fn first_match(arms: Seq<TagArmView>, variant: VariantDeclView) -> Option<
    TagRefView,
>
    decreases arms.len(),
{
    if arms.len() == 0 {
        None
    } else if pattern_matches(arms.first().pattern, variant) {
        Some(arms.first().tag)
    } else {
        first_match(arms.drop_first(), variant)
    }
}

/// The first of `methods` that goes by `name`.
pub open spec fn find_method(methods: Seq<MethodView>, name: Seq<char>) -> Option<MethodView>
    decreases methods.len(),
{
    if methods.len() == 0 {
        None
    } else if methods.first().name == name {
        Some(methods.first())
    } else {
        find_method(methods.drop_first(), name)
    }
}

/// What the tag-extraction method of `block` yields on the values of
/// `variant`, if the block has such a method and one of its arms matches.
pub open spec fn tag_in(block: ImplBlockView, variant: VariantDeclView) -> Option<TagRefView> {
    match find_method(block.methods, tag_method_name()) {
        Some(method) => match method.body {
            MethodBodyView::TagOf { arms, .. } => first_match(arms, variant),
            _ => None,
        },
        None => None,
    }
}

/// What `method`, as a member of `block`, yields on the value `x` of the sum
/// type `decl`.
///
/// A predicate goes through the tag-extraction method of its block, as the
/// derived code does, and an accessor matches the variant it names with one
/// bound field.
pub open spec fn call<V>(
    block: ImplBlockView,
    method: MethodView,
    decl: SumTypeDeclView,
    x: Instance<V>,
) -> Outcome<V> {
    let variant = decl.variants()[x.variant];
    match method.body {
        MethodBodyView::TagOf { arms, .. } => match first_match(arms, variant) {
            Some(tag) => Outcome::Tag(tag),
            None => Outcome::Stuck,
        },
        MethodBodyView::IsTag { tag } => match tag_in(block, variant) {
            Some(found) => Outcome::Flag(found == tag),
            None => Outcome::Stuck,
        },
        MethodBodyView::Project { variant: name, .. } => {
            let binding = MatchPatternView {
                variant: name,
                payload: PayloadPattern::SingleBinding,
            };
            if pattern_matches(binding, variant) {
                Outcome::Field(Some(x.payload[0]))
            } else {
                Outcome::Field(None)
            }
        },
    }
}

} // verus!
