//! The variant classifier.
//!
//! One pass over the variants of a sum type yields one [`VariantDescriptor`]
//! per variant, in declaration order. A descriptor holds the variant's shape
//! class in the form of the pattern that matches it, and every name that the
//! emitters need.

use crate::naming::{
    borrow_mut_name, borrow_mut_name_of, borrow_name, borrow_name_of, consume_name,
    consume_name_of, predicate_name, predicate_name_of, snake_case, to_snake_case,
};
use crate::schema::{views, Shape, ShapeView, VariantDecl, VariantDeclView};
use vstd::prelude::*;

verus! {

/// The four shape classes that decide what is derived for a variant.
#[derive(Debug, Clone, Copy, PartialEq, Eq)]
pub enum ShapeClass {
    /// No payload.
    Empty,
    /// Named fields, any number of them.
    NamedFields,
    /// Exactly one positional field.
    SingleUnnamed,
    /// Positional fields, but not exactly one.
    MultiUnnamed,
}

/// The shape class of a payload shape.
pub open spec fn shape_class_of(shape: ShapeView) -> ShapeClass {
    match shape {
        ShapeView::Empty => ShapeClass::Empty,
        ShapeView::NamedFields(_) => ShapeClass::NamedFields,
        ShapeView::UnnamedFields(types) => if types.len() == 1 {
            ShapeClass::SingleUnnamed
        } else {
            ShapeClass::MultiUnnamed
        },
    }
}

/// Determines the shape class of a payload shape.
pub fn shape_class(shape: &Shape) -> (class: ShapeClass)
    ensures
        class == shape_class_of(shape@),
{
    match shape {
        Shape::Empty => ShapeClass::Empty,
        Shape::NamedFields(_) => ShapeClass::NamedFields,
        Shape::UnnamedFields(types) => if types.len() == 1 {
            ShapeClass::SingleUnnamed
        } else {
            ShapeClass::MultiUnnamed
        },
    }
}

/// How a pattern treats the payload of the variant it names.
#[derive(Debug, Clone, Copy, PartialEq, Eq)]
pub enum PayloadPattern {
    /// `Self::V`: the bare tag, for a variant without payload.
    Exact,
    /// `Self::V { .. }`: any named payload.
    NamedWildcard,
    /// `Self::V(_)`: one positional field, whatever it holds.
    SingleBinding,
    /// `Self::V(..)`: any positional payload.
    TupleWildcard,
}

/// The payload pattern that covers every value of a shape class.
pub open spec fn payload_pattern_of(class: ShapeClass) -> PayloadPattern {
    match class {
        ShapeClass::Empty => PayloadPattern::Exact,
        ShapeClass::NamedFields => PayloadPattern::NamedWildcard,
        ShapeClass::SingleUnnamed => PayloadPattern::SingleBinding,
        ShapeClass::MultiUnnamed => PayloadPattern::TupleWildcard,
    }
}

/// Chooses the payload pattern that covers every value of a shape class.
pub fn payload_pattern(class: ShapeClass) -> (pattern: PayloadPattern)
    ensures
        pattern == payload_pattern_of(class),
{
    match class {
        ShapeClass::Empty => PayloadPattern::Exact,
        ShapeClass::NamedFields => PayloadPattern::NamedWildcard,
        ShapeClass::SingleUnnamed => PayloadPattern::SingleBinding,
        ShapeClass::MultiUnnamed => PayloadPattern::TupleWildcard,
    }
}

/// A pattern that matches one variant of the sum type irrespective of its
/// payload.
#[derive(Debug, PartialEq, Eq)]
pub struct MatchPattern {
    /// Identifier of the variant the pattern names.
    pub variant: String,
    /// How the pattern treats the payload.
    pub payload: PayloadPattern,
}

/// Mathematical model of a [`MatchPattern`].
#[verifier::ext_equal]
pub struct MatchPatternView {
    pub variant: Seq<char>,
    pub payload: PayloadPattern,
}

impl View for MatchPattern {
    type V = MatchPatternView;

    open spec fn view(&self) -> MatchPatternView {
        MatchPatternView { variant: self.variant@, payload: self.payload }
    }
}

impl Clone for MatchPattern {
    fn clone(&self) -> (copy: Self)
        ensures
            copy@ == self@,
    {
        MatchPattern { variant: self.variant.clone(), payload: self.payload }
    }
}

/// A qualified reference to one case of the kind type: `<kind type>::<tag>`.
#[derive(Debug, PartialEq, Eq)]
pub struct TagRef {
    /// Name of the kind type.
    pub kind_type: String,
    /// Identifier of the case.
    pub tag: String,
}

/// Mathematical model of a [`TagRef`].
#[verifier::ext_equal]
pub struct TagRefView {
    pub kind_type: Seq<char>,
    pub tag: Seq<char>,
}

impl View for TagRef {
    type V = TagRefView;

    open spec fn view(&self) -> TagRefView {
        TagRefView { kind_type: self.kind_type@, tag: self.tag@ }
    }
}

impl Clone for TagRef {
    fn clone(&self) -> (copy: Self)
        ensures
            copy@ == self@,
    {
        TagRef { kind_type: self.kind_type.clone(), tag: self.tag.clone() }
    }
}

/// The names of the three accessors of a variant with one positional field.
#[derive(Debug, PartialEq, Eq)]
pub struct AccessorNames {
    /// Name of the borrowing accessor.
    pub borrow: String,
    /// Name of the mutably borrowing accessor.
    pub borrow_mut: String,
    /// Name of the consuming accessor.
    pub consume: String,
}

/// Mathematical model of [`AccessorNames`].
#[verifier::ext_equal]
pub struct AccessorNamesView {
    pub borrow: Seq<char>,
    pub borrow_mut: Seq<char>,
    pub consume: Seq<char>,
}

impl View for AccessorNames {
    type V = AccessorNamesView;

    open spec fn view(&self) -> AccessorNamesView {
        AccessorNamesView {
            borrow: self.borrow@,
            borrow_mut: self.borrow_mut@,
            consume: self.consume@,
        }
    }
}

/// The accessor names that belong to a snake_case variant name.
pub open spec fn accessor_names_of(snake: Seq<char>) -> AccessorNamesView {
    AccessorNamesView {
        borrow: borrow_name_of(snake),
        borrow_mut: borrow_mut_name_of(snake),
        consume: consume_name_of(snake),
    }
}

/// Derives the three accessor names from a snake_case variant name.
pub fn accessor_names(snake: &str) -> (names: AccessorNames)
    ensures
        names@ == accessor_names_of(snake@),
{
    AccessorNames {
        borrow: borrow_name(snake),
        borrow_mut: borrow_mut_name(snake),
        consume: consume_name(snake),
    }
}

/// What the emitters need to know of one variant.
///
/// Identifiers are plain text, so a descriptor carries no trace of the place
/// where the variant was declared.
#[derive(Debug, PartialEq, Eq)]
pub struct VariantDescriptor {
    /// The variant's identifier, unchanged.
    pub tag_identifier: String,
    /// The case of the kind type that stands for the variant.
    pub qualified_tag_reference: TagRef,
    /// The pattern that matches the variant irrespective of its payload.
    pub match_pattern: MatchPattern,
    /// Name of the variant's predicate.
    pub predicate_name: String,
    /// Type of the payload, present only for a variant with exactly one
    /// positional field.
    pub single_field_type: Option<String>,
    /// Names of the accessors, present under the same condition.
    pub accessor_names: Option<AccessorNames>,
}

/// Mathematical model of a [`VariantDescriptor`].
#[verifier::ext_equal]
pub struct VariantDescriptorView {
    pub tag_identifier: Seq<char>,
    pub qualified_tag_reference: TagRefView,
    pub match_pattern: MatchPatternView,
    pub predicate_name: Seq<char>,
    pub single_field_type: Option<Seq<char>>,
    pub accessor_names: Option<AccessorNamesView>,
}

impl VariantDescriptorView {
    /// Whether accessors are derived for the variant.
    pub open spec fn has_accessors(self) -> bool {
        self.match_pattern.payload is SingleBinding
    }

    /// The descriptor's parts agree with each other: tag, reference and
    /// pattern name the same variant, and the payload type and the accessor
    /// names are present exactly for the single-binding pattern.
    pub open spec fn well_formed(self) -> bool {
        &&& self.qualified_tag_reference.tag == self.tag_identifier
        &&& self.match_pattern.variant == self.tag_identifier
        &&& self.single_field_type is Some <==> self.has_accessors()
        &&& self.accessor_names is Some <==> self.has_accessors()
    }
}

impl View for VariantDescriptor {
    type V = VariantDescriptorView;

    open spec fn view(&self) -> VariantDescriptorView {
        VariantDescriptorView {
            tag_identifier: self.tag_identifier@,
            qualified_tag_reference: self.qualified_tag_reference@,
            match_pattern: self.match_pattern@,
            predicate_name: self.predicate_name@,
            single_field_type: match self.single_field_type {
                Some(ty) => Some(ty@),
                None => None,
            },
            accessor_names: match self.accessor_names {
                Some(names) => Some(names@),
                None => None,
            },
        }
    }
}

/// The descriptor of `variant`, for a kind type named `kind_type`, given the
/// snake_case form `snake` of the variant's identifier.
pub open spec fn descriptor(
    variant: VariantDeclView,
    kind_type: Seq<char>,
    snake: Seq<char>,
) -> VariantDescriptorView {
    let class = shape_class_of(variant.shape);
    VariantDescriptorView {
        tag_identifier: variant.identifier,
        qualified_tag_reference: TagRefView { kind_type, tag: variant.identifier },
        match_pattern: MatchPatternView {
            variant: variant.identifier,
            payload: payload_pattern_of(class),
        },
        predicate_name: predicate_name_of(snake),
        single_field_type: if class is SingleUnnamed {
            Some(variant.shape->UnnamedFields_0[0])
        } else {
            None
        },
        accessor_names: if class is SingleUnnamed {
            Some(accessor_names_of(snake))
        } else {
            None
        },
    }
}

/// The descriptors of `variants` in the same order, each with the snake_case
/// form that [`snake_case`] gives its identifier.
pub open spec fn classification(
    variants: Seq<VariantDeclView>,
    kind_type: Seq<char>,
) -> Seq<VariantDescriptorView> {
    Seq::new(
        variants.len(),
        |i: int| descriptor(variants[i], kind_type, snake_case(variants[i].identifier)),
    )
}

/// Builds the descriptor of one variant from the snake_case form of its
/// identifier.
///
/// The tag identifier is the variant's identifier unchanged, the names are
/// the fixed affixes around `snake`, and payload type and accessor names are
/// recorded exactly when the variant has one positional field.
pub fn describe_variant(variant: &VariantDecl, kind_type: &str, snake: &str) -> (d:
    VariantDescriptor)
    ensures
        d@ == descriptor(variant@, kind_type@, snake@),
        d@.well_formed(),
{
    let class = shape_class(&variant.shape);
    let mut single_field_type: Option<String> = None;
    let mut names: Option<AccessorNames> = None;
    match &variant.shape {
        Shape::UnnamedFields(types) => {
            if types.len() == 1 {
                single_field_type = Some(types[0].clone());
                names = Some(accessor_names(snake));
            }
        },
        _ => {},
    }
    VariantDescriptor {
        tag_identifier: variant.identifier.clone(),
        qualified_tag_reference: TagRef {
            kind_type: String::from_str(kind_type),
            tag: variant.identifier.clone(),
        },
        match_pattern: MatchPattern {
            variant: variant.identifier.clone(),
            payload: payload_pattern(class),
        },
        predicate_name: predicate_name(snake),
        single_field_type,
        accessor_names: names,
    }
}

/// Classifies one variant: converts its identifier to snake_case and
/// describes it with that name.
pub fn classify_variant(variant: &VariantDecl, kind_type: &str) -> (d: VariantDescriptor)
    ensures
        d@ == descriptor(variant@, kind_type@, snake_case(variant@.identifier)),
        d@.well_formed(),
{
    let snake = to_snake_case(variant.identifier.as_str());
    describe_variant(variant, kind_type, snake.as_str())
}

/// Classifies the variants of a sum type.
///
/// The result has one descriptor per variant, in declaration order.
pub fn classify(variants: &Vec<VariantDecl>, kind_type: &str) -> (descriptors: Vec<
    VariantDescriptor,
>)
    ensures
        views(descriptors@) == classification(views(variants@), kind_type@),
        forall|i: int| 0 <= i < descriptors@.len() ==> (#[trigger] descriptors@[i])@.well_formed(),
{
    let mut descriptors: Vec<VariantDescriptor> = Vec::new();
    let mut i: usize = 0;
    while i < variants.len()
        invariant
            i <= variants.len(),
            descriptors@.len() == i,
            forall|j: int|
                0 <= j < i ==> (#[trigger] descriptors@[j])@ == descriptor(
                    variants@[j]@,
                    kind_type@,
                    snake_case(variants@[j]@.identifier),
                ),
            forall|j: int| 0 <= j < i ==> (#[trigger] descriptors@[j])@.well_formed(),
        decreases variants.len() - i,
    {
        let d = classify_variant(&variants[i], kind_type);
        descriptors.push(d);
        i += 1;
    }
    descriptors
}

} // verus!
