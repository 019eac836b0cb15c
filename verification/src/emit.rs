//! The two emitters and the transformation they make up.
//!
//! The tag-type emitter turns the descriptors of a sum type into the kind
//! type: an enumeration with one payload-free case per variant. The accessor
//! emitter turns the same descriptors into the methods that are attached to
//! the sum type itself. Both keep the declaration order of the variants.

use crate::classify::{
    classification, classify, AccessorNamesView, MatchPattern, MatchPatternView, TagRef,
    TagRefView, VariantDescriptor, VariantDescriptorView,
};
use crate::naming::{kind_type_name, kind_type_name_of};
use crate::schema::{views, Generics, GenericsView, SumTypeDecl, SumTypeDeclView, TypeData};
use vstd::prelude::*;

verus! {

/// The kind type: a payload-free enumeration that mirrors the variant tags of
/// a sum type.
#[derive(Debug, PartialEq, Eq)]
pub struct KindTypeDecl {
    /// Visibility marker, as source text.
    pub visibility: String,
    /// Name of the enumeration.
    pub name: String,
    /// The cases, in the declaration order of the variants.
    pub cases: Vec<String>,
}

/// Mathematical model of a [`KindTypeDecl`].
#[verifier::ext_equal]
pub struct KindTypeDeclView {
    pub visibility: Seq<char>,
    pub name: Seq<char>,
    pub cases: Seq<Seq<char>>,
}

impl View for KindTypeDecl {
    type V = KindTypeDeclView;

    open spec fn view(&self) -> KindTypeDeclView {
        KindTypeDeclView {
            visibility: self.visibility@,
            name: self.name@,
            cases: views(self.cases@),
        }
    }
}

/// One arm of the tag-extraction method: a pattern and the tag it yields.
#[derive(Debug, PartialEq, Eq)]
pub struct TagArm {
    pub pattern: MatchPattern,
    pub tag: TagRef,
}

/// Mathematical model of a [`TagArm`].
#[verifier::ext_equal]
pub struct TagArmView {
    pub pattern: MatchPatternView,
    pub tag: TagRefView,
}

impl View for TagArm {
    type V = TagArmView;

    open spec fn view(&self) -> TagArmView {
        TagArmView { pattern: self.pattern@, tag: self.tag@ }
    }
}

/// The three ways an accessor reaches the payload of a variant.
#[derive(Debug, Clone, Copy, PartialEq, Eq)]
pub enum Access {
    /// Through a shared reference: `&self` to `Option<&T>`.
    Borrow,
    /// Through an exclusive reference: `&mut self` to `Option<&mut T>`.
    BorrowMut,
    /// By taking the value: `self` to `Option<T>`.
    Consume,
}

/// What a derived method does. The body fixes the receiver and the return
/// type of the method with it.
#[derive(Debug, PartialEq, Eq)]
pub enum MethodBody {
    /// Takes `&self` and returns the case of `kind_type` from the first arm
    /// whose pattern matches.
    TagOf { kind_type: String, arms: Vec<TagArm> },
    /// Takes `&self` and returns whether the tag-extraction method yields
    /// `tag`.
    IsTag { tag: TagRef },
    /// Returns the single field of `variant`, whose type is `field_type`, if
    /// the receiver is that variant, and nothing otherwise.
    Project { access: Access, variant: String, field_type: String },
}

/// Mathematical model of a [`MethodBody`].
#[verifier::ext_equal]
pub enum MethodBodyView {
    TagOf { kind_type: Seq<char>, arms: Seq<TagArmView> },
    IsTag { tag: TagRefView },
    Project { access: Access, variant: Seq<char>, field_type: Seq<char> },
}

impl View for MethodBody {
    type V = MethodBodyView;

    open spec fn view(&self) -> MethodBodyView {
        match self {
            MethodBody::TagOf { kind_type, arms } => MethodBodyView::TagOf {
                kind_type: kind_type@,
                arms: views(arms@),
            },
            MethodBody::IsTag { tag } => MethodBodyView::IsTag { tag: tag@ },
            MethodBody::Project { access, variant, field_type } => MethodBodyView::Project {
                access: *access,
                variant: variant@,
                field_type: field_type@,
            },
        }
    }
}

/// One derived method.
#[derive(Debug, PartialEq, Eq)]
pub struct Method {
    /// Visibility marker, as source text.
    pub visibility: String,
    /// Name of the method.
    pub name: String,
    /// What the method does.
    pub body: MethodBody,
}

/// Mathematical model of a [`Method`].
#[verifier::ext_equal]
pub struct MethodView {
    pub visibility: Seq<char>,
    pub name: Seq<char>,
    pub body: MethodBodyView,
}

impl View for Method {
    type V = MethodView;

    open spec fn view(&self) -> MethodView {
        MethodView { visibility: self.visibility@, name: self.name@, body: self.body@ }
    }
}

/// The implementation block that attaches the derived methods to the sum
/// type.
#[derive(Debug, PartialEq, Eq)]
pub struct ImplBlock {
    /// Generics of the sum type, reproduced unchanged.
    pub generics: Generics,
    /// Name of the sum type.
    pub self_type: String,
    /// The derived methods, in emission order.
    pub methods: Vec<Method>,
}

/// Mathematical model of an [`ImplBlock`].
#[verifier::ext_equal]
pub struct ImplBlockView {
    pub generics: GenericsView,
    pub self_type: Seq<char>,
    pub methods: Seq<MethodView>,
}

impl View for ImplBlock {
    type V = ImplBlockView;

    open spec fn view(&self) -> ImplBlockView {
        ImplBlockView {
            generics: self.generics@,
            self_type: self.self_type@,
            methods: views(self.methods@),
        }
    }
}

/// Everything that is derived for one sum type.
#[derive(Debug, PartialEq, Eq)]
pub struct Expansion {
    pub kind_type: KindTypeDecl,
    pub impl_block: ImplBlock,
}

/// Mathematical model of an [`Expansion`].
#[verifier::ext_equal]
pub struct ExpansionView {
    pub kind_type: KindTypeDeclView,
    pub impl_block: ImplBlockView,
}

impl View for Expansion {
    type V = ExpansionView;

    open spec fn view(&self) -> ExpansionView {
        ExpansionView { kind_type: self.kind_type@, impl_block: self.impl_block@ }
    }
}

/// Name of the tag-extraction method.
pub open spec fn tag_method_name() -> Seq<char> {
    "kind"@
}

/// The kind type for `descriptors`: one case per descriptor, in order.
pub open spec fn kind_type_of(
    descriptors: Seq<VariantDescriptorView>,
    name: Seq<char>,
    visibility: Seq<char>,
) -> KindTypeDeclView {
    KindTypeDeclView {
        visibility,
        name,
        cases: Seq::new(descriptors.len(), |i: int| descriptors[i].tag_identifier),
    }
}

/// The arm of the tag-extraction method for one descriptor.
pub open spec fn tag_arm_of(d: VariantDescriptorView) -> TagArmView {
    TagArmView { pattern: d.match_pattern, tag: d.qualified_tag_reference }
}

/// The tag-extraction method: one arm per descriptor, in order, and no
/// fallback arm.
pub open spec fn tag_method_of(
    descriptors: Seq<VariantDescriptorView>,
    kind_type: Seq<char>,
    visibility: Seq<char>,
) -> MethodView {
    MethodView {
        visibility,
        name: tag_method_name(),
        body: MethodBodyView::TagOf {
            kind_type,
            arms: Seq::new(descriptors.len(), |i: int| tag_arm_of(descriptors[i])),
        },
    }
}

/// The predicate of one descriptor.
pub open spec fn predicate_method_of(
    d: VariantDescriptorView,
    visibility: Seq<char>,
) -> MethodView {
    MethodView {
        visibility,
        name: d.predicate_name,
        body: MethodBodyView::IsTag { tag: d.qualified_tag_reference },
    }
}

/// The predicates of `descriptors`: one per descriptor, in order.
pub open spec fn predicate_methods_of(
    descriptors: Seq<VariantDescriptorView>,
    visibility: Seq<char>,
) -> Seq<MethodView> {
    Seq::new(descriptors.len(), |i: int| predicate_method_of(descriptors[i], visibility))
}

/// The name that `names` gives the accessor with the given access.
pub open spec fn accessor_name_of(names: AccessorNamesView, access: Access) -> Seq<char> {
    match access {
        Access::Borrow => names.borrow,
        Access::BorrowMut => names.borrow_mut,
        Access::Consume => names.consume,
    }
}

/// The accessor of one descriptor with the given access, if the descriptor
/// records a payload type and accessor names.
pub open spec fn accessor_method_of(
    d: VariantDescriptorView,
    access: Access,
    visibility: Seq<char>,
) -> Option<MethodView> {
    match (d.accessor_names, d.single_field_type) {
        (Some(names), Some(field_type)) => Some(
            MethodView {
                visibility,
                name: accessor_name_of(names, access),
                body: MethodBodyView::Project { access, variant: d.tag_identifier, field_type },
            },
        ),
        _ => None,
    }
}

/// The accessors of `descriptors` with the given access: one for each
/// descriptor that has one, in order.
pub open spec fn accessor_methods_of(
    descriptors: Seq<VariantDescriptorView>,
    access: Access,
    visibility: Seq<char>,
) -> Seq<MethodView>
    decreases descriptors.len(),
{
    if descriptors.len() == 0 {
        Seq::empty()
    } else {
        let before = accessor_methods_of(descriptors.drop_last(), access, visibility);
        match accessor_method_of(descriptors.last(), access, visibility) {
            Some(method) => before.push(method),
            None => before,
        }
    }
}

/// Whether accessors are emitted for a descriptor.
pub open spec fn emits_accessors(d: VariantDescriptorView) -> bool {
    d.accessor_names is Some && d.single_field_type is Some
}

/// How many of the first `i` descriptors have accessors.
pub open spec fn accessors_before(descriptors: Seq<VariantDescriptorView>, i: int) -> nat
    decreases i,
{
    if i <= 0 {
        0
    } else {
        accessors_before(descriptors, i - 1) + if emits_accessors(descriptors[i - 1]) {
            1nat
        } else {
            0nat
        }
    }
}

/// Where the predicate of the descriptor at `i` stands in the method set.
pub open spec fn predicate_position(i: int) -> int {
    1 + i
}

/// Where the accessor of the descriptor at `i` with the given access stands
/// in the method set, if the descriptor has accessors.
pub open spec fn accessor_position(
    descriptors: Seq<VariantDescriptorView>,
    access: Access,
    i: int,
) -> int {
    let per_group = accessors_before(descriptors, descriptors.len() as int);
    let groups_before = match access {
        Access::Borrow => 0nat,
        Access::BorrowMut => per_group,
        Access::Consume => per_group + per_group,
    };
    (1 + descriptors.len() + groups_before + accessors_before(descriptors, i)) as int
}

/// The derived method set in its fixed order: the tag-extraction method, the
/// predicates, the borrowing accessors, the mutably borrowing accessors, the
/// consuming accessors.
pub open spec fn method_set_of(
    descriptors: Seq<VariantDescriptorView>,
    kind_type: Seq<char>,
    visibility: Seq<char>,
) -> Seq<MethodView> {
    seq![tag_method_of(descriptors, kind_type, visibility)] + predicate_methods_of(
        descriptors,
        visibility,
    ) + accessor_methods_of(descriptors, Access::Borrow, visibility) + accessor_methods_of(
        descriptors,
        Access::BorrowMut,
        visibility,
    ) + accessor_methods_of(descriptors, Access::Consume, visibility)
}

/// The implementation block for `descriptors`, attached to the sum type
/// `self_type`.
pub open spec fn impl_block_of(
    descriptors: Seq<VariantDescriptorView>,
    self_type: Seq<char>,
    generics: GenericsView,
    visibility: Seq<char>,
) -> ImplBlockView {
    ImplBlockView {
        generics,
        self_type,
        methods: method_set_of(descriptors, kind_type_name_of(self_type), visibility),
    }
}

/// Everything that is derived for the sum type `decl`.
pub open spec fn expansion(decl: SumTypeDeclView) -> ExpansionView {
    let kind_type = kind_type_name_of(decl.name);
    let descriptors = classification(decl.variants(), kind_type);
    ExpansionView {
        kind_type: kind_type_of(descriptors, kind_type, decl.visibility),
        impl_block: impl_block_of(descriptors, decl.name, decl.generics, decl.visibility),
    }
}

/// The models of a sequence with one more item are the models of the
/// sequence with the model of that item.
pub proof fn lemma_views_push<T: View>(items: Seq<T>, item: T)
    ensures
        views(items.push(item)) == views(items).push(item@),
{
}

/// Emits the kind type: one payload-free case per descriptor, in order, under
/// the given name and visibility.
pub fn emit_kind_type(descriptors: &Vec<VariantDescriptor>, name: &str, visibility: &str) -> (kind:
    KindTypeDecl)
    ensures
        kind@ == kind_type_of(views(descriptors@), name@, visibility@),
{
    let mut cases: Vec<String> = Vec::new();
    let mut i: usize = 0;
    while i < descriptors.len()
        invariant
            i <= descriptors.len(),
            cases@.len() == i,
            forall|j: int|
                0 <= j < i ==> (#[trigger] cases@[j])@ == descriptors@[j]@.tag_identifier,
        decreases descriptors.len() - i,
    {
        cases.push(descriptors[i].tag_identifier.clone());
        i += 1;
    }
    KindTypeDecl { visibility: String::from_str(visibility), name: String::from_str(name), cases }
}

/// Emits the tag-extraction method: one arm per descriptor, in order.
pub fn emit_tag_method(descriptors: &Vec<VariantDescriptor>, kind_type: &str, visibility: &str) -> (
    method: Method
)
    ensures
        method@ == tag_method_of(views(descriptors@), kind_type@, visibility@),
{
    let mut arms: Vec<TagArm> = Vec::new();
    let mut i: usize = 0;
    while i < descriptors.len()
        invariant
            i <= descriptors.len(),
            arms@.len() == i,
            forall|j: int| 0 <= j < i ==> (#[trigger] arms@[j])@ == tag_arm_of(descriptors@[j]@),
        decreases descriptors.len() - i,
    {
        let d = &descriptors[i];
        arms.push(
            TagArm { pattern: d.match_pattern.clone(), tag: d.qualified_tag_reference.clone() },
        );
        i += 1;
    }
    Method {
        visibility: String::from_str(visibility),
        name: String::from_str("kind"),
        body: MethodBody::TagOf { kind_type: String::from_str(kind_type), arms },
    }
}

/// Emits the predicate of one descriptor.
pub fn emit_predicate(d: &VariantDescriptor, visibility: &str) -> (method: Method)
    ensures
        method@ == predicate_method_of(d@, visibility@),
{
    Method {
        visibility: String::from_str(visibility),
        name: d.predicate_name.clone(),
        body: MethodBody::IsTag { tag: d.qualified_tag_reference.clone() },
    }
}

/// Emits the accessor of one descriptor with the given access, if the
/// descriptor records a payload type and accessor names.
pub fn emit_accessor(d: &VariantDescriptor, access: Access, visibility: &str) -> (method: Option<
    Method,
>)
    ensures
        match method {
            Some(m) => accessor_method_of(d@, access, visibility@) == Some(m@),
            None => accessor_method_of(d@, access, visibility@) is None,
        },
{
    match (&d.accessor_names, &d.single_field_type) {
        (Some(names), Some(field_type)) => {
            let name = match access {
                Access::Borrow => names.borrow.clone(),
                Access::BorrowMut => names.borrow_mut.clone(),
                Access::Consume => names.consume.clone(),
            };
            Some(
                Method {
                    visibility: String::from_str(visibility),
                    name,
                    body: MethodBody::Project {
                        access,
                        variant: d.tag_identifier.clone(),
                        field_type: field_type.clone(),
                    },
                },
            )
        },
        _ => None,
    }
}

/// Appends the predicates of `descriptors` to `methods`, in order.
fn push_predicates(
    methods: &mut Vec<Method>,
    descriptors: &Vec<VariantDescriptor>,
    visibility: &str,
)
    ensures
        views(final(methods)@) == views(old(methods)@) + predicate_methods_of(
            views(descriptors@),
            visibility@,
        ),
{
    let ghost start = views(methods@);
    let mut i: usize = 0;
    while i < descriptors.len()
        invariant
            i <= descriptors.len(),
            views(methods@) == start + predicate_methods_of(
                views(descriptors@).take(i as int),
                visibility@,
            ),
        decreases descriptors.len() - i,
    {
        let ghost before = methods@;
        let method = emit_predicate(&descriptors[i], visibility);
        methods.push(method);
        proof {
            lemma_views_push(before, method);
        }
        i += 1;
    }
}

/// Appends the accessors of `descriptors` with the given access to `methods`,
/// in order.
fn push_accessors(
    methods: &mut Vec<Method>,
    descriptors: &Vec<VariantDescriptor>,
    access: Access,
    visibility: &str,
)
    ensures
        views(final(methods)@) == views(old(methods)@) + accessor_methods_of(
            views(descriptors@),
            access,
            visibility@,
        ),
{
    let ghost start = views(methods@);
    let mut i: usize = 0;
    while i < descriptors.len()
        invariant
            i <= descriptors.len(),
            views(methods@) == start + accessor_methods_of(
                views(descriptors@).take(i as int),
                access,
                visibility@,
            ),
        decreases descriptors.len() - i,
    {
        let ghost before = methods@;
        proof {
            assert(views(descriptors@).take(i + 1).drop_last() =~= views(descriptors@).take(
                i as int,
            ));
        }
        match emit_accessor(&descriptors[i], access, visibility) {
            Some(method) => {
                methods.push(method);
                proof {
                    lemma_views_push(before, method);
                }
            },
            None => {},
        }
        i += 1;
    }
    assert(views(descriptors@).take(descriptors@.len() as int) =~= views(descriptors@));
}

/// Emits the derived method set, attached to the sum type `self_type` with
/// its generics reproduced unchanged.
///
/// The methods come in a fixed order: the tag-extraction method, then the
/// predicates, then the borrowing, the mutably borrowing and the consuming
/// accessors, each group in the order of the descriptors.
pub fn emit_methods(
    descriptors: &Vec<VariantDescriptor>,
    self_type: &str,
    generics: &Generics,
    visibility: &str,
) -> (block: ImplBlock)
    ensures
        block@ == impl_block_of(views(descriptors@), self_type@, generics@, visibility@),
{
    let kind_type = kind_type_name(self_type);
    let mut methods: Vec<Method> = Vec::new();
    methods.push(emit_tag_method(descriptors, kind_type.as_str(), visibility));
    push_predicates(&mut methods, descriptors, visibility);
    push_accessors(&mut methods, descriptors, Access::Borrow, visibility);
    push_accessors(&mut methods, descriptors, Access::BorrowMut, visibility);
    push_accessors(&mut methods, descriptors, Access::Consume, visibility);
    ImplBlock { generics: generics.clone(), self_type: String::from_str(self_type), methods }
}

/// Derives the kind type and the method set of a sum type.
///
/// The description must be that of a tagged union; nothing is derived for a
/// product type or an untagged union.
pub fn expand(input: &SumTypeDecl) -> (out: Expansion)
    requires
        input@.is_enum(),
    ensures
        out@ == expansion(input@),
{
    let kind_type = kind_type_name(input.name.as_str());
    match &input.data {
        TypeData::Enum(variants) => {
            let descriptors = classify(variants, kind_type.as_str());
            let kind = emit_kind_type(
                &descriptors,
                kind_type.as_str(),
                input.visibility.as_str(),
            );
            let block = emit_methods(
                &descriptors,
                input.name.as_str(),
                &input.generics,
                input.visibility.as_str(),
            );
            Expansion { kind_type: kind, impl_block: block }
        },
        _ => vstd::pervasive::unreached(),
    }
}

} // verus!
