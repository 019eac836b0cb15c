use nice_enum::classify::{classify, VariantDescriptor};
use nice_enum::emit::{
    emit_accessor, emit_kind_type, emit_methods, emit_predicate, emit_tag_method, Access,
    MethodBody,
};
use nice_enum::schema::{Generics, Shape, VariantDecl};

fn positional(types: &[&str]) -> Shape {
    Shape::UnnamedFields(types.iter().map(|ty| ty.to_string()).collect())
}

fn descriptors() -> Vec<VariantDescriptor> {
    let variants = vec![
        VariantDecl { identifier: "Text".to_string(), shape: positional(&["String"]) },
        VariantDecl { identifier: "Nothing".to_string(), shape: Shape::Empty },
        VariantDecl { identifier: "Pair".to_string(), shape: positional(&["u8", "u8"]) },
        VariantDecl { identifier: "Number".to_string(), shape: positional(&["i64"]) },
    ];
    classify(&variants, "ValueKind")
}

fn no_generics() -> Generics {
    Generics {
        impl_generics: String::new(),
        type_generics: String::new(),
        where_clause: String::new(),
    }
}

#[test]
fn kind_type_has_one_case_per_descriptor() {
    let kind = emit_kind_type(&descriptors(), "ValueKind", "pub");
    assert_eq!(kind.name, "ValueKind");
    assert_eq!(kind.visibility, "pub");
    assert_eq!(kind.cases, vec!["Text", "Nothing", "Pair", "Number"]);
}

#[test]
fn tag_method_has_one_arm_per_descriptor() {
    let method = emit_tag_method(&descriptors(), "ValueKind", "pub");
    assert_eq!(method.name, "kind");
    assert_eq!(method.visibility, "pub");
    match method.body {
        MethodBody::TagOf { kind_type, arms } => {
            assert_eq!(kind_type, "ValueKind");
            let arms: Vec<String> = arms.iter().map(|arm| arm.render()).collect();
            assert_eq!(
                arms,
                vec![
                    "            Self::Text(_) => ValueKind::Text,\n",
                    "            Self::Nothing => ValueKind::Nothing,\n",
                    "            Self::Pair(..) => ValueKind::Pair,\n",
                    "            Self::Number(_) => ValueKind::Number,\n",
                ]
            );
        }
        other => panic!("expected the tag-extraction body, found {:?}", other),
    }
}

#[test]
fn predicate_tests_the_tag() {
    let descriptors = descriptors();
    let method = emit_predicate(&descriptors[2], "pub(super)");
    assert_eq!(method.name, "is_pair");
    assert_eq!(method.visibility, "pub(super)");
    match method.body {
        MethodBody::IsTag { tag } => {
            assert_eq!(tag.kind_type, "ValueKind");
            assert_eq!(tag.tag, "Pair");
        }
        other => panic!("expected a tag test, found {:?}", other),
    }
}

#[test]
fn accessors_exist_for_single_fields_only() {
    let descriptors = descriptors();
    for access in [Access::Borrow, Access::BorrowMut, Access::Consume] {
        assert_eq!(emit_accessor(&descriptors[1], access, "pub"), None);
        assert_eq!(emit_accessor(&descriptors[2], access, "pub"), None);
    }
    let names: Vec<String> = [Access::Borrow, Access::BorrowMut, Access::Consume]
        .into_iter()
        .map(|access| emit_accessor(&descriptors[3], access, "pub").unwrap().name)
        .collect();
    assert_eq!(names, vec!["as_number", "as_number_mut", "into_number"]);
    let method = emit_accessor(&descriptors[0], Access::BorrowMut, "").unwrap();
    assert_eq!(method.visibility, "");
    assert_eq!(
        method.body,
        MethodBody::Project {
            access: Access::BorrowMut,
            variant: "Text".to_string(),
            field_type: "String".to_string(),
        }
    );
}

#[test]
fn method_set_comes_in_five_groups() {
    let generics = Generics {
        impl_generics: "<'a>".to_string(),
        type_generics: "<'a>".to_string(),
        where_clause: String::new(),
    };
    let block = emit_methods(&descriptors(), "Value", &generics, "pub");
    assert_eq!(block.self_type, "Value");
    assert_eq!(block.generics, generics);
    let names: Vec<&str> = block.methods.iter().map(|method| method.name.as_str()).collect();
    assert_eq!(
        names,
        vec![
            "kind",
            "is_text",
            "is_nothing",
            "is_pair",
            "is_number",
            "as_text",
            "as_number",
            "as_text_mut",
            "as_number_mut",
            "into_text",
            "into_number",
        ]
    );
    match &block.methods[0].body {
        MethodBody::TagOf { kind_type, arms } => {
            assert_eq!(kind_type, "ValueKind");
            assert_eq!(arms.len(), 4);
        }
        other => panic!("expected the tag-extraction body, found {:?}", other),
    }
}

#[test]
fn method_set_without_single_fields() {
    let variants = vec![
        VariantDecl { identifier: "A".to_string(), shape: Shape::Empty },
        VariantDecl { identifier: "B".to_string(), shape: Shape::NamedFields(vec![]) },
    ];
    let block = emit_methods(&classify(&variants, "LetterKind"), "Letter", &no_generics(), "");
    let names: Vec<&str> = block.methods.iter().map(|method| method.name.as_str()).collect();
    assert_eq!(names, vec!["kind", "is_a", "is_b"]);
}

#[test]
fn method_set_of_no_descriptors() {
    let block = emit_methods(&vec![], "Never", &no_generics(), "pub");
    assert_eq!(block.methods.len(), 1);
    assert_eq!(
        block.methods[0].body,
        MethodBody::TagOf { kind_type: "NeverKind".to_string(), arms: vec![] }
    );
}
