//! What holds of every derivation.
//!
//! The lemmas at the top fix the layout of the derived method set. The laws
//! after them speak of the declarations derived for an arbitrary sum type,
//! and of what the derived methods yield on an arbitrary value of it.

use crate::classify::{
    classification, descriptor, shape_class_of, TagRefView, VariantDescriptorView,
};
use crate::emit::{
    accessor_method_of, accessor_methods_of, accessor_position, accessors_before,
    emits_accessors, expansion, method_set_of, predicate_method_of, predicate_position,
    tag_method_name, tag_method_of, Access, MethodView, TagArmView,
};
use crate::naming::{kind_type_name_of, snake_case};
use crate::schema::{SumTypeDeclView, VariantDeclView};
use crate::semantics::{call, first_match, pattern_matches, tag_in, Instance, Outcome};
use vstd::prelude::*;

verus! {

/// The descriptors that the derivation for `decl` works with.
pub open spec fn descriptors_of(decl: SumTypeDeclView) -> Seq<VariantDescriptorView> {
    classification(decl.variants(), kind_type_name_of(decl.name))
}

/// The case of the kind type that stands for the variant at `i`.
pub open spec fn tag_of_variant(decl: SumTypeDeclView, i: int) -> TagRefView {
    TagRefView { kind_type: kind_type_name_of(decl.name), tag: decl.variants()[i].identifier }
}

/// Whether the variant at `i` has exactly one positional field.
pub open spec fn has_single_field(decl: SumTypeDeclView, i: int) -> bool {
    shape_class_of(decl.variants()[i].shape) is SingleUnnamed
}

/// The tag-extraction method derived for `decl`.
pub open spec fn derived_tag_method(decl: SumTypeDeclView) -> MethodView {
    expansion(decl).impl_block.methods[0]
}

/// The arms of the tag-extraction method derived for `decl`.
pub open spec fn derived_arms(decl: SumTypeDeclView) -> Seq<TagArmView> {
    derived_tag_method(decl).body->arms
}

/// The predicate derived for the variant at `i`.
pub open spec fn derived_predicate(decl: SumTypeDeclView, i: int) -> MethodView {
    expansion(decl).impl_block.methods[predicate_position(i)]
}

/// The accessor with the given access derived for the variant at `i`, which
/// has exactly one positional field.
pub open spec fn derived_accessor(decl: SumTypeDeclView, access: Access, i: int) -> MethodView {
    expansion(decl).impl_block.methods[accessor_position(descriptors_of(decl), access, i)]
}

/// What `method`, as one of the methods derived for `decl`, yields on `x`.
pub open spec fn yields<V>(decl: SumTypeDeclView, method: MethodView, x: Instance<V>) -> Outcome<
    V,
> {
    call(expansion(decl).impl_block, method, decl, x)
}

/// The count of accessors among the first `i` descriptors looks at those
/// descriptors only.
pub proof fn lemma_accessors_before_take(
    descriptors: Seq<VariantDescriptorView>,
    n: int,
    i: int,
)
    requires
        0 <= i <= n <= descriptors.len(),
    ensures
        accessors_before(descriptors.take(n), i) == accessors_before(descriptors, i),
    decreases i,
{
    if i > 0 {
        lemma_accessors_before_take(descriptors, n, i - 1);
    }
}

/// The count of accessors grows with the position, and grows strictly past a
/// descriptor that has accessors.
pub proof fn lemma_accessors_before_monotone(
    descriptors: Seq<VariantDescriptorView>,
    i: int,
    j: int,
)
    requires
        0 <= i <= j,
    ensures
        accessors_before(descriptors, i) <= accessors_before(descriptors, j),
        i < j && emits_accessors(descriptors[i]) ==> accessors_before(descriptors, i)
            < accessors_before(descriptors, j),
    decreases j - i,
{
    if i < j {
        lemma_accessors_before_monotone(descriptors, i, j - 1);
    }
}

/// The accessors of one access come one per descriptor that has accessors,
/// each at the place that the count of accessors before it gives.
pub proof fn lemma_accessor_methods_layout(
    descriptors: Seq<VariantDescriptorView>,
    access: Access,
    visibility: Seq<char>,
)
    ensures
        accessor_methods_of(descriptors, access, visibility).len() == accessors_before(
            descriptors,
            descriptors.len() as int,
        ),
        forall|i: int|
            0 <= i < descriptors.len() && emits_accessors(#[trigger] descriptors[i]) ==> {
                let at = accessors_before(descriptors, i) as int;
                &&& at < accessors_before(descriptors, descriptors.len() as int)
                &&& accessor_methods_of(descriptors, access, visibility)[at] == accessor_method_of(
                    descriptors[i],
                    access,
                    visibility,
                )->0
            },
    decreases descriptors.len(),
{
    if descriptors.len() > 0 {
        let n = descriptors.len() - 1;
        let front = descriptors.drop_last();
        lemma_accessor_methods_layout(front, access, visibility);
        lemma_accessors_before_take(descriptors, n, n);
        assert forall|i: int|
            0 <= i < descriptors.len() && emits_accessors(#[trigger] descriptors[i]) implies {
            let at = accessors_before(descriptors, i) as int;
            &&& at < accessors_before(descriptors, descriptors.len() as int)
            &&& accessor_methods_of(descriptors, access, visibility)[at] == accessor_method_of(
                descriptors[i],
                access,
                visibility,
            )->0
        } by {
            lemma_accessors_before_monotone(descriptors, i, descriptors.len() as int);
            if i < n {
                assert(front[i] == descriptors[i]);
                lemma_accessors_before_take(descriptors, n, i);
            }
        }
    }
}

/// The derived method set is laid out in five groups: the tag-extraction
/// method, the predicates of all descriptors in order, and the borrowing, the
/// mutably borrowing and the consuming accessors, each group holding the
/// accessors of the descriptors that have some, in order.
pub proof fn lemma_method_set_layout(
    descriptors: Seq<VariantDescriptorView>,
    kind_type: Seq<char>,
    visibility: Seq<char>,
)
    ensures
        method_set_of(descriptors, kind_type, visibility).len() == 1 + descriptors.len() + 3
            * accessors_before(descriptors, descriptors.len() as int),
        method_set_of(descriptors, kind_type, visibility)[0] == tag_method_of(
            descriptors,
            kind_type,
            visibility,
        ),
        forall|i: int|
            0 <= i < descriptors.len() ==> #[trigger] method_set_of(
                descriptors,
                kind_type,
                visibility,
            )[predicate_position(i)] == predicate_method_of(descriptors[i], visibility),
        forall|access: Access, i: int|
            0 <= i < descriptors.len() && emits_accessors(descriptors[i]) ==> {
                let at = #[trigger] accessor_position(descriptors, access, i);
                &&& 1 + descriptors.len() <= at < method_set_of(
                    descriptors,
                    kind_type,
                    visibility,
                ).len()
                &&& method_set_of(descriptors, kind_type, visibility)[at] == accessor_method_of(
                    descriptors[i],
                    access,
                    visibility,
                )->0
            },
{
    lemma_accessor_methods_layout(descriptors, Access::Borrow, visibility);
    lemma_accessor_methods_layout(descriptors, Access::BorrowMut, visibility);
    lemma_accessor_methods_layout(descriptors, Access::Consume, visibility);
    let methods = method_set_of(descriptors, kind_type, visibility);
    assert forall|access: Access, i: int|
        0 <= i < descriptors.len() && emits_accessors(descriptors[i]) implies {
        let at = #[trigger] accessor_position(descriptors, access, i);
        &&& 1 + descriptors.len() <= at < methods.len()
        &&& methods[at] == accessor_method_of(descriptors[i], access, visibility)->0
    } by {
        match access {
            Access::Borrow => {},
            Access::BorrowMut => {},
            Access::Consume => {},
        }
    }
}

/// A descriptor made by the classifier is well formed, and it has accessors
/// exactly when its variant has one positional field.
pub proof fn lemma_classified_accessors(decl: SumTypeDeclView, i: int)
    requires
        0 <= i < decl.variants().len(),
    ensures
        descriptors_of(decl)[i] == descriptor(
            decl.variants()[i],
            kind_type_name_of(decl.name),
            snake_case(decl.variants()[i].identifier),
        ),
        descriptors_of(decl)[i].well_formed(),
        emits_accessors(descriptors_of(decl)[i]) <==> has_single_field(decl, i),
{
}

/// Order preservation: the kind type has one case per variant and the
/// tag-extraction method one arm per variant, both in declaration order, and
/// the arm at each place names the variant at that place and yields its tag.
pub proof fn law_order_preserved(decl: SumTypeDeclView)
    requires
        decl.is_enum(),
    ensures
        expansion(decl).kind_type.cases.len() == decl.variants().len(),
        forall|i: int|
            0 <= i < decl.variants().len() ==> #[trigger] expansion(decl).kind_type.cases[i]
                == decl.variants()[i].identifier,
        derived_tag_method(decl).body is TagOf,
        derived_arms(decl).len() == decl.variants().len(),
        forall|i: int|
            0 <= i < decl.variants().len() ==> {
                let arm = #[trigger] derived_arms(decl)[i];
                &&& arm.pattern.variant == decl.variants()[i].identifier
                &&& arm.tag == tag_of_variant(decl, i)
            },
{
    lemma_method_set_layout(descriptors_of(decl), kind_type_name_of(decl.name), decl.visibility);
}

/// Emission order: the method set starts with the tag-extraction method, the
/// predicates of all variants follow in declaration order, and after them
/// come the borrowing, the mutably borrowing and the consuming accessors of
/// the variants with one positional field, each group in declaration order.
pub proof fn law_emission_order(decl: SumTypeDeclView)
    requires
        decl.is_enum(),
    ensures
        derived_tag_method(decl).name == tag_method_name(),
        forall|i: int|
            0 <= i < decl.variants().len() ==> #[trigger] derived_predicate(decl, i)
                == predicate_method_of(descriptors_of(decl)[i], decl.visibility),
        forall|access: Access, i: int|
            0 <= i < decl.variants().len() && has_single_field(decl, i) ==> {
                let method = #[trigger] derived_accessor(decl, access, i);
                Some(method) == accessor_method_of(descriptors_of(decl)[i], access, decl.visibility)
            },
        forall|access: Access, i: int, j: int|
            #![trigger
                accessor_position(descriptors_of(decl), access, i),
                accessor_position(descriptors_of(decl), access, j),
            ]
            0 <= i < j < decl.variants().len() && has_single_field(decl, i) && has_single_field(
                decl,
                j,
            ) ==> accessor_position(descriptors_of(decl), access, i) < accessor_position(
                descriptors_of(decl),
                access,
                j,
            ),
        forall|i: int, j: int, k: int, l: int|
            #![trigger
                predicate_position(i),
                accessor_position(descriptors_of(decl), Access::Borrow, j),
                accessor_position(descriptors_of(decl), Access::BorrowMut, k),
                accessor_position(descriptors_of(decl), Access::Consume, l),
            ]
            {
                &&& 0 <= i < decl.variants().len()
                &&& 0 <= j < decl.variants().len() && has_single_field(decl, j)
                &&& 0 <= k < decl.variants().len() && has_single_field(decl, k)
                &&& 0 <= l < decl.variants().len() && has_single_field(decl, l)
            } ==> {
                &&& 0 < predicate_position(i)
                &&& predicate_position(i) < accessor_position(
                    descriptors_of(decl),
                    Access::Borrow,
                    j,
                )
                &&& accessor_position(descriptors_of(decl), Access::Borrow, j) < accessor_position(
                    descriptors_of(decl),
                    Access::BorrowMut,
                    k,
                )
                &&& accessor_position(descriptors_of(decl), Access::BorrowMut, k)
                    < accessor_position(descriptors_of(decl), Access::Consume, l)
            },
{
    let descriptors = descriptors_of(decl);
    let count = descriptors.len() as int;
    lemma_method_set_layout(descriptors, kind_type_name_of(decl.name), decl.visibility);
    assert forall|access: Access, i: int|
        0 <= i < decl.variants().len() && has_single_field(decl, i) implies {
        let method = #[trigger] derived_accessor(decl, access, i);
        Some(method) == accessor_method_of(descriptors_of(decl)[i], access, decl.visibility)
    } by {
        lemma_classified_accessors(decl, i);
    }
    assert forall|i: int| 0 <= i < count && has_single_field(decl, i) implies accessors_before(
        descriptors,
        i,
    ) < accessors_before(descriptors, count) by {
        lemma_classified_accessors(decl, i);
        lemma_accessors_before_monotone(descriptors, i, count);
    }
    assert forall|access: Access, i: int, j: int|
        #![trigger
            accessor_position(descriptors_of(decl), access, i),
            accessor_position(descriptors_of(decl), access, j),
        ]
        0 <= i < j < decl.variants().len() && has_single_field(decl, i) && has_single_field(
            decl,
            j,
        ) implies accessor_position(descriptors_of(decl), access, i) < accessor_position(
        descriptors_of(decl),
        access,
        j,
    ) by {
        lemma_classified_accessors(decl, i);
        lemma_accessors_before_monotone(descriptors, i, j);
    }
}

/// If some arm matches and every matching arm yields `tag`, the first match
/// yields `tag`.
pub proof fn lemma_first_match(
    arms: Seq<TagArmView>,
    variant: VariantDeclView,
    i: int,
    tag: TagRefView,
)
    requires
        0 <= i < arms.len(),
        pattern_matches(arms[i].pattern, variant),
        forall|j: int|
            0 <= j < arms.len() && pattern_matches((#[trigger] arms[j]).pattern, variant)
                ==> arms[j].tag == tag,
    ensures
        first_match(arms, variant) == Some(tag),
    decreases arms.len(),
{
    if !pattern_matches(arms.first().pattern, variant) {
        lemma_first_match(arms.drop_first(), variant, i - 1, tag);
    }
}

/// Exhaustiveness: the derived tag-extraction method yields a tag on every
/// value of the sum type, and the tag is that of the value's own variant.
pub proof fn law_tag_total<V>(decl: SumTypeDeclView, x: Instance<V>)
    requires
        x.inhabits(decl),
    ensures
        yields(decl, derived_tag_method(decl), x) == Outcome::<V>::Tag(
            tag_of_variant(decl, x.variant),
        ),
        tag_in(expansion(decl).impl_block, decl.variants()[x.variant]) == Some(
            tag_of_variant(decl, x.variant),
        ),
{
    lemma_method_set_layout(descriptors_of(decl), kind_type_name_of(decl.name), decl.visibility);
    lemma_first_match(
        derived_arms(decl),
        decl.variants()[x.variant],
        x.variant,
        tag_of_variant(decl, x.variant),
    );
}

/// Predicate and tag agree: the predicate derived for a variant holds of a
/// value exactly when the tag-extraction method yields that variant's tag.
/// Where no identifier names two variants, that is exactly when the value is
/// of that variant.
pub proof fn law_predicate_is_tag_test<V>(decl: SumTypeDeclView, i: int, x: Instance<V>)
    requires
        x.inhabits(decl),
        0 <= i < decl.variants().len(),
    ensures
        yields(decl, derived_predicate(decl, i), x) == Outcome::<V>::Flag(
            yields(decl, derived_tag_method(decl), x) == Outcome::<V>::Tag(
                tag_of_variant(decl, i),
            ),
        ),
        decl.distinct_identifiers() ==> yields(decl, derived_predicate(decl, i), x) == Outcome::<
            V,
        >::Flag(x.variant == i),
{
    law_tag_total(decl, x);
    lemma_method_set_layout(descriptors_of(decl), kind_type_name_of(decl.name), decl.visibility);
}

/// What an accessor derived for the variant at `i` yields: the payload of a
/// value whose variant goes by the same identifier and has one positional
/// field, and nothing on any other value.
pub proof fn lemma_accessor_matches<V>(
    decl: SumTypeDeclView,
    access: Access,
    i: int,
    x: Instance<V>,
)
    requires
        x.inhabits(decl),
        0 <= i < decl.variants().len(),
        has_single_field(decl, i),
    ensures
        derived_accessor(decl, access, i).body is Project,
        derived_accessor(decl, access, i).body->access == access,
        yields(decl, derived_accessor(decl, access, i), x) == Outcome::Field(
            if decl.variants()[x.variant].identifier == decl.variants()[i].identifier
                && has_single_field(decl, x.variant) {
                Some(x.payload[0])
            } else {
                None
            },
        ),
{
    lemma_classified_accessors(decl, i);
    lemma_method_set_layout(descriptors_of(decl), kind_type_name_of(decl.name), decl.visibility);
}

/// Accessor soundness: the borrowing accessor of a variant with one
/// positional field yields something exactly on the values for which the
/// variant's predicate holds, and what it yields is the payload of the value.
pub proof fn law_borrow_sound<V>(decl: SumTypeDeclView, i: int, x: Instance<V>)
    requires
        decl.distinct_identifiers(),
        x.inhabits(decl),
        0 <= i < decl.variants().len(),
        has_single_field(decl, i),
    ensures
        derived_accessor(decl, Access::Borrow, i).body is Project,
        derived_accessor(decl, Access::Borrow, i).body->access == Access::Borrow,
        yields(decl, derived_predicate(decl, i), x) == Outcome::<V>::Flag(x.variant == i),
        yields(decl, derived_accessor(decl, Access::Borrow, i), x) == Outcome::Field(
            if x.variant == i {
                Some(x.payload[0])
            } else {
                None
            },
        ),
{
    lemma_accessor_matches(decl, Access::Borrow, i, x);
    law_predicate_is_tag_test(decl, i, x);
}

/// Mutation isolation: the mutably borrowing accessor hands out the payload
/// field and nothing else. Whatever is written through it, the result is a
/// value of the same variant, the accessor yields what was written, and the
/// tag-extraction method yields the same tag as before.
pub proof fn law_mutation_keeps_tag<V>(decl: SumTypeDeclView, i: int, x: Instance<V>, value: V)
    requires
        x.inhabits(decl),
        0 <= i < decl.variants().len(),
        has_single_field(decl, i),
        yields(decl, derived_accessor(decl, Access::BorrowMut, i), x) == Outcome::Field(
            Some(x.payload[0]),
        ),
    ensures
        derived_accessor(decl, Access::BorrowMut, i).body is Project,
        derived_accessor(decl, Access::BorrowMut, i).body->access == Access::BorrowMut,
        x.with_field(value).inhabits(decl),
        x.with_field(value).variant == x.variant,
        yields(decl, derived_accessor(decl, Access::BorrowMut, i), x.with_field(value))
            == Outcome::Field(Some(value)),
        yields(decl, derived_tag_method(decl), x.with_field(value)) == yields(
            decl,
            derived_tag_method(decl),
            x,
        ),
{
    lemma_accessor_matches(decl, Access::BorrowMut, i, x);
    lemma_accessor_matches(decl, Access::BorrowMut, i, x.with_field(value));
    law_tag_total(decl, x);
    law_tag_total(decl, x.with_field(value));
}

/// Consuming round trip: the consuming accessor of a variant with one
/// positional field takes the value itself, yields something exactly on the
/// values of that variant, and what it yields is the payload of the value.
pub proof fn law_consume_round_trip<V>(decl: SumTypeDeclView, i: int, x: Instance<V>)
    requires
        decl.distinct_identifiers(),
        x.inhabits(decl),
        0 <= i < decl.variants().len(),
        has_single_field(decl, i),
    ensures
        derived_accessor(decl, Access::Consume, i).body is Project,
        derived_accessor(decl, Access::Consume, i).body->access == Access::Consume,
        yields(decl, derived_accessor(decl, Access::Consume, i), x) == Outcome::Field(
            if x.variant == i {
                Some(x.payload[0])
            } else {
                None
            },
        ),
{
    lemma_accessor_matches(decl, Access::Consume, i, x);
}

} // verus!
