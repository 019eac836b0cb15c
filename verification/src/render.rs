//! Source text of the derived declarations.
//!
//! Each derived item has one textual form, given here as a function of its
//! model. The text is laid out the way hand-written code would be: four
//! spaces per level, one case, arm or statement per line.

use crate::classify::{MatchPattern, MatchPatternView, PayloadPattern, TagRef, TagRefView};
use crate::emit::{
    Access, Expansion, ExpansionView, ImplBlock, ImplBlockView, KindTypeDecl, KindTypeDeclView,
    Method, MethodBody, MethodBodyView, MethodView, TagArm, TagArmView,
};
use crate::schema::views;
use vstd::prelude::*;

verus! {

/// `text` followed by a space, or nothing if `text` is empty.
pub open spec fn spaced(text: Seq<char>) -> Seq<char> {
    if text.len() == 0 {
        text
    } else {
        text + " "@
    }
}

/// `text` after a space, or nothing if `text` is empty.
pub open spec fn led(text: Seq<char>) -> Seq<char> {
    if text.len() == 0 {
        text
    } else {
        " "@ + text
    }
}

/// The capability markers of the kind type: equality, total order in
/// declaration order, hashing and bitwise copy, besides debug printing.
pub open spec fn derive_line() -> Seq<char> {
    "#[derive(Debug, Clone, Copy, PartialEq, Eq, PartialOrd, Ord, Hash)]\n"@
}

/// The cases of the kind type, one per line.
pub open spec fn cases_text(cases: Seq<Seq<char>>) -> Seq<char>
    decreases cases.len(),
{
    if cases.len() == 0 {
        Seq::empty()
    } else {
        cases_text(cases.drop_last()) + "    "@ + cases.last() + ",\n"@
    }
}

/// The declaration of the kind type.
pub open spec fn kind_type_text(kind: KindTypeDeclView) -> Seq<char> {
    derive_line() + spaced(kind.visibility) + "enum "@ + kind.name + " {\n"@ + cases_text(
        kind.cases,
    ) + "}\n"@
}

/// What follows the variant's path in a pattern.
pub open spec fn payload_text(payload: PayloadPattern) -> Seq<char> {
    match payload {
        PayloadPattern::Exact => ""@,
        PayloadPattern::NamedWildcard => " { .. }"@,
        PayloadPattern::SingleBinding => "(_)"@,
        PayloadPattern::TupleWildcard => "(..)"@,
    }
}

/// A pattern, written against `Self`.
pub open spec fn pattern_text(pattern: MatchPatternView) -> Seq<char> {
    "Self::"@ + pattern.variant + payload_text(pattern.payload)
}

/// A qualified tag reference.
pub open spec fn tag_ref_text(tag: TagRefView) -> Seq<char> {
    tag.kind_type + "::"@ + tag.tag
}

/// One arm of the tag-extraction method, on a line of its own.
pub open spec fn arm_text(arm: TagArmView) -> Seq<char> {
    "            "@ + pattern_text(arm.pattern) + " => "@ + tag_ref_text(arm.tag) + ",\n"@
}

/// The arms of the tag-extraction method, in order.
pub open spec fn arms_text(arms: Seq<TagArmView>) -> Seq<char>
    decreases arms.len(),
{
    if arms.len() == 0 {
        Seq::empty()
    } else {
        arms_text(arms.drop_last()) + arm_text(arms.last())
    }
}

/// Receiver and return type of an accessor, up to the payload type.
pub open spec fn accessor_signature_text(access: Access) -> Seq<char> {
    match access {
        Access::Borrow => "(&self) -> Option<&"@,
        Access::BorrowMut => "(&mut self) -> Option<&mut "@,
        Access::Consume => "(self) -> Option<"@,
    }
}

/// A method up to its name.
pub open spec fn method_head_text(method: MethodView) -> Seq<char> {
    "    "@ + spaced(method.visibility) + "fn "@ + method.name
}

/// One derived method.
pub open spec fn method_text(method: MethodView) -> Seq<char> {
    match method.body {
        MethodBodyView::TagOf { kind_type, arms } => method_head_text(method) + "(&self) -> "@
            + kind_type + " {\n        match self {\n"@ + arms_text(arms)
            + "        }\n    }\n"@,
        MethodBodyView::IsTag { tag } => method_head_text(method)
            + "(&self) -> bool {\n        matches!(self.kind(), "@ + tag_ref_text(tag)
            + ")\n    }\n"@,
        MethodBodyView::Project { access, variant, field_type } => method_head_text(method)
            + accessor_signature_text(access) + field_type
            + "> {\n        match self {\n            Self::"@ + variant
            + "(v) => Some(v),\n            _ => None,\n        }\n    }\n"@,
    }
}

/// The derived methods, in order.
pub open spec fn methods_text(methods: Seq<MethodView>) -> Seq<char>
    decreases methods.len(),
{
    if methods.len() == 0 {
        Seq::empty()
    } else {
        methods_text(methods.drop_last()) + method_text(methods.last())
    }
}

/// The implementation block with its methods.
pub open spec fn impl_block_text(block: ImplBlockView) -> Seq<char> {
    "impl"@ + block.generics.impl_generics + " "@ + block.self_type + block.generics.type_generics
        + led(block.generics.where_clause) + " {\n"@ + methods_text(block.methods) + "}\n"@
}

/// The kind type, an empty line, and the implementation block.
pub open spec fn expansion_text(expansion: ExpansionView) -> Seq<char> {
    kind_type_text(expansion.kind_type) + "\n"@ + impl_block_text(expansion.impl_block)
}

fn render_spaced(text: &str) -> (out: String)
    ensures
        out@ == spaced(text@),
{
    if text.is_empty() {
        String::from_str(text)
    } else {
        String::from_str(text).concat(" ")
    }
}

fn render_led(text: &str) -> (out: String)
    ensures
        out@ == led(text@),
{
    if text.is_empty() {
        String::from_str(text)
    } else {
        String::from_str(" ").concat(text)
    }
}

fn render_cases(cases: &Vec<String>) -> (out: String)
    ensures
        out@ == cases_text(views(cases@)),
{
    let mut out = String::new();
    let mut i: usize = 0;
    while i < cases.len()
        invariant
            i <= cases.len(),
            out@ == cases_text(views(cases@).take(i as int)),
        decreases cases.len() - i,
    {
        proof {
            assert(views(cases@).take(i + 1).drop_last() =~= views(cases@).take(i as int));
        }
        out.append("    ");
        out.append(cases[i].as_str());
        out.append(",\n");
        i += 1;
    }
    assert(views(cases@).take(cases@.len() as int) =~= views(cases@));
    out
}

fn render_payload(payload: PayloadPattern) -> (out: &'static str)
    ensures
        out@ == payload_text(payload),
{
    match payload {
        PayloadPattern::Exact => "",
        PayloadPattern::NamedWildcard => " { .. }",
        PayloadPattern::SingleBinding => "(_)",
        PayloadPattern::TupleWildcard => "(..)",
    }
}

fn render_accessor_signature(access: Access) -> (out: &'static str)
    ensures
        out@ == accessor_signature_text(access),
{
    match access {
        Access::Borrow => "(&self) -> Option<&",
        Access::BorrowMut => "(&mut self) -> Option<&mut ",
        Access::Consume => "(self) -> Option<",
    }
}

fn render_arms(arms: &Vec<TagArm>) -> (out: String)
    ensures
        out@ == arms_text(views(arms@)),
{
    let mut out = String::new();
    let mut i: usize = 0;
    while i < arms.len()
        invariant
            i <= arms.len(),
            out@ == arms_text(views(arms@).take(i as int)),
        decreases arms.len() - i,
    {
        proof {
            assert(views(arms@).take(i + 1).drop_last() =~= views(arms@).take(i as int));
        }
        let arm = arms[i].render();
        out.append(arm.as_str());
        i += 1;
    }
    assert(views(arms@).take(arms@.len() as int) =~= views(arms@));
    out
}

fn render_methods(methods: &Vec<Method>) -> (out: String)
    ensures
        out@ == methods_text(views(methods@)),
{
    let mut out = String::new();
    let mut i: usize = 0;
    while i < methods.len()
        invariant
            i <= methods.len(),
            out@ == methods_text(views(methods@).take(i as int)),
        decreases methods.len() - i,
    {
        proof {
            assert(views(methods@).take(i + 1).drop_last() =~= views(methods@).take(i as int));
        }
        let method = methods[i].render();
        out.append(method.as_str());
        i += 1;
    }
    assert(views(methods@).take(methods@.len() as int) =~= views(methods@));
    out
}

impl MatchPattern {
    /// The pattern as source text, written against `Self`.
    pub fn render(&self) -> (out: String)
        ensures
            out@ == pattern_text(self@),
    {
        String::from_str("Self::").concat(self.variant.as_str()).concat(
            render_payload(self.payload),
        )
    }
}

impl TagRef {
    /// The reference as source text.
    pub fn render(&self) -> (out: String)
        ensures
            out@ == tag_ref_text(self@),
    {
        self.kind_type.clone().concat("::").concat(self.tag.as_str())
    }
}

impl TagArm {
    /// The arm as one line of source text.
    pub fn render(&self) -> (out: String)
        ensures
            out@ == arm_text(self@),
    {
        let pattern = self.pattern.render();
        let tag = self.tag.render();
        String::from_str("            ").concat(pattern.as_str()).concat(" => ").concat(
            tag.as_str(),
        ).concat(",\n")
    }
}

impl KindTypeDecl {
    /// The declaration of the kind type as source text.
    pub fn render(&self) -> (out: String)
        ensures
            out@ == kind_type_text(self@),
    {
        let visibility = render_spaced(self.visibility.as_str());
        let cases = render_cases(&self.cases);
        String::from_str(
            "#[derive(Debug, Clone, Copy, PartialEq, Eq, PartialOrd, Ord, Hash)]\n",
        ).concat(visibility.as_str()).concat("enum ").concat(self.name.as_str()).concat(
            " {\n",
        ).concat(cases.as_str()).concat("}\n")
    }
}

impl Method {
    /// The method as source text.
    pub fn render(&self) -> (out: String)
        ensures
            out@ == method_text(self@),
    {
        let visibility = render_spaced(self.visibility.as_str());
        let head = String::from_str("    ").concat(visibility.as_str()).concat("fn ").concat(
            self.name.as_str(),
        );
        match &self.body {
            MethodBody::TagOf { kind_type, arms } => {
                let arms = render_arms(arms);
                head.concat("(&self) -> ").concat(kind_type.as_str()).concat(
                    " {\n        match self {\n",
                ).concat(arms.as_str()).concat("        }\n    }\n")
            },
            MethodBody::IsTag { tag } => {
                let tag = tag.render();
                head.concat("(&self) -> bool {\n        matches!(self.kind(), ").concat(
                    tag.as_str(),
                ).concat(")\n    }\n")
            },
            MethodBody::Project { access, variant, field_type } => {
                head.concat(render_accessor_signature(*access)).concat(field_type.as_str()).concat(
                    "> {\n        match self {\n            Self::",
                ).concat(variant.as_str()).concat(
                    "(v) => Some(v),\n            _ => None,\n        }\n    }\n",
                )
            },
        }
    }
}

impl ImplBlock {
    /// The implementation block as source text.
    pub fn render(&self) -> (out: String)
        ensures
            out@ == impl_block_text(self@),
    {
        let where_clause = render_led(self.generics.where_clause.as_str());
        let methods = render_methods(&self.methods);
        String::from_str("impl").concat(self.generics.impl_generics.as_str()).concat(" ").concat(
            self.self_type.as_str(),
        ).concat(self.generics.type_generics.as_str()).concat(where_clause.as_str()).concat(
            " {\n",
        ).concat(methods.as_str()).concat("}\n")
    }
}

impl Expansion {
    /// The derived declarations as source text: the kind type, then the
    /// implementation block.
    pub fn render(&self) -> (out: String)
        ensures
            out@ == expansion_text(self@),
    {
        let kind_type = self.kind_type.render();
        let impl_block = self.impl_block.render();
        kind_type.concat("\n").concat(impl_block.as_str())
    }
}

} // verus!
