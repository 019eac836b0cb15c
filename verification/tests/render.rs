use nice_enum::classify::{MatchPattern, PayloadPattern, TagRef};
use nice_enum::emit::{Access, ImplBlock, KindTypeDecl, Method, MethodBody, TagArm};
use nice_enum::schema::Generics;

fn pattern(variant: &str, payload: PayloadPattern) -> MatchPattern {
    MatchPattern { variant: variant.to_string(), payload }
}

fn tag(kind_type: &str, tag: &str) -> TagRef {
    TagRef { kind_type: kind_type.to_string(), tag: tag.to_string() }
}

#[test]
fn patterns_as_text() {
    assert_eq!(pattern("Unit", PayloadPattern::Exact).render(), "Self::Unit");
    assert_eq!(pattern("Named", PayloadPattern::NamedWildcard).render(), "Self::Named { .. }");
    assert_eq!(pattern("One", PayloadPattern::SingleBinding).render(), "Self::One(_)");
    assert_eq!(pattern("Many", PayloadPattern::TupleWildcard).render(), "Self::Many(..)");
}

#[test]
fn tag_reference_as_text() {
    assert_eq!(tag("MyEnumKind", "Unit").render(), "MyEnumKind::Unit");
}

#[test]
fn arm_as_text() {
    let arm = TagArm {
        pattern: pattern("Named", PayloadPattern::NamedWildcard),
        tag: tag("MyEnumKind", "Named"),
    };
    assert_eq!(arm.render(), "            Self::Named { .. } => MyEnumKind::Named,\n");
}

#[test]
fn kind_type_as_text() {
    let kind = KindTypeDecl {
        visibility: "pub".to_string(),
        name: "ShapeKind".to_string(),
        cases: vec!["Circle".to_string(), "Square".to_string()],
    };
    assert_eq!(
        kind.render(),
        "#[derive(Debug, Clone, Copy, PartialEq, Eq, PartialOrd, Ord, Hash)]\n\
         pub enum ShapeKind {\n    Circle,\n    Square,\n}\n"
    );
    let private = KindTypeDecl {
        visibility: String::new(),
        name: "ShapeKind".to_string(),
        cases: vec![],
    };
    assert_eq!(
        private.render(),
        "#[derive(Debug, Clone, Copy, PartialEq, Eq, PartialOrd, Ord, Hash)]\n\
         enum ShapeKind {\n}\n"
    );
}

#[test]
fn accessors_as_text() {
    let method = |access, name: &str| Method {
        visibility: "pub".to_string(),
        name: name.to_string(),
        body: MethodBody::Project {
            access,
            variant: "Full".to_string(),
            field_type: "Box<str>".to_string(),
        },
    };
    let body = "        match self {\n            Self::Full(v) => Some(v),\n            \
                _ => None,\n        }\n    }\n";
    assert_eq!(
        method(Access::Borrow, "as_full").render(),
        format!("    pub fn as_full(&self) -> Option<&Box<str>> {{\n{}", body)
    );
    assert_eq!(
        method(Access::BorrowMut, "as_full_mut").render(),
        format!("    pub fn as_full_mut(&mut self) -> Option<&mut Box<str>> {{\n{}", body)
    );
    assert_eq!(
        method(Access::Consume, "into_full").render(),
        format!("    pub fn into_full(self) -> Option<Box<str>> {{\n{}", body)
    );
}

#[test]
fn predicate_as_text() {
    let method = Method {
        visibility: String::new(),
        name: "is_full".to_string(),
        body: MethodBody::IsTag { tag: tag("HolderKind", "Full") },
    };
    assert_eq!(
        method.render(),
        "    fn is_full(&self) -> bool {\n        matches!(self.kind(), HolderKind::Full)\n    }\n"
    );
}

#[test]
fn impl_block_header_as_text() {
    let block = |generics: Generics| ImplBlock {
        generics,
        self_type: "Holder".to_string(),
        methods: vec![],
    };
    let plain = Generics {
        impl_generics: String::new(),
        type_generics: String::new(),
        where_clause: String::new(),
    };
    assert_eq!(block(plain).render(), "impl Holder {\n}\n");
    let bounded = Generics {
        impl_generics: "<T: Clone>".to_string(),
        type_generics: "<T>".to_string(),
        where_clause: String::new(),
    };
    assert_eq!(block(bounded).render(), "impl<T: Clone> Holder<T> {\n}\n");
    let constrained = Generics {
        impl_generics: "<T>".to_string(),
        type_generics: "<T>".to_string(),
        where_clause: "where T: Copy".to_string(),
    };
    assert_eq!(block(constrained).render(), "impl<T> Holder<T> where T: Copy {\n}\n");
}
