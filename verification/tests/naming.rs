use nice_enum::classify::{accessor_names, classify, classify_variant};
use nice_enum::naming::{
    borrow_mut_name, borrow_name, consume_name, kind_type_name, predicate_name,
};
use nice_enum::schema::{NamedField, Shape, VariantDecl};

fn unit(identifier: &str) -> VariantDecl {
    VariantDecl { identifier: identifier.to_string(), shape: Shape::Empty }
}

#[test]
fn names_are_fixed_affixes() {
    assert_eq!(kind_type_name("MyEnum"), "MyEnumKind");
    assert_eq!(predicate_name("unit"), "is_unit");
    assert_eq!(borrow_name("unnamed_fields"), "as_unnamed_fields");
    assert_eq!(borrow_mut_name("unnamed_fields"), "as_unnamed_fields_mut");
    assert_eq!(consume_name("unnamed_fields"), "into_unnamed_fields");
}

#[test]
fn names_of_an_empty_stem() {
    assert_eq!(kind_type_name(""), "Kind");
    assert_eq!(predicate_name(""), "is_");
    assert_eq!(borrow_name(""), "as_");
    assert_eq!(borrow_mut_name(""), "as__mut");
    assert_eq!(consume_name(""), "into_");
}

#[test]
fn accessor_names_come_in_threes() {
    let names = accessor_names("full");
    assert_eq!(names.borrow, "as_full");
    assert_eq!(names.borrow_mut, "as_full_mut");
    assert_eq!(names.consume, "into_full");
}

#[test]
fn unnamed_fields_variant_gets_all_four_names() {
    let variant = VariantDecl {
        identifier: "UnnamedFields".to_string(),
        shape: Shape::UnnamedFields(vec!["u32".to_string()]),
    };
    let d = classify_variant(&variant, "MyEnumKind");
    assert_eq!(d.predicate_name, "is_unnamed_fields");
    let names = d.accessor_names.unwrap();
    assert_eq!(names.borrow, "as_unnamed_fields");
    assert_eq!(names.borrow_mut, "as_unnamed_fields_mut");
    assert_eq!(names.consume, "into_unnamed_fields");
}

#[test]
fn named_fields_variant_gets_the_predicate_only() {
    let variant = VariantDecl {
        identifier: "NamedFields".to_string(),
        shape: Shape::NamedFields(vec![NamedField {
            name: "a".to_string(),
            ty: "u32".to_string(),
        }]),
    };
    let d = classify_variant(&variant, "MyEnumKind");
    assert_eq!(d.predicate_name, "is_named_fields");
    assert_eq!(d.accessor_names, None);
    assert_eq!(d.single_field_type, None);
}

#[test]
fn word_boundaries_in_identifiers() {
    let variants = vec![
        unit("Unit"),
        unit("HTTPRequest"),
        unit("Vector4D"),
        unit("Utf8"),
        unit("already_snake"),
        unit("X"),
    ];
    let names: Vec<String> =
        classify(&variants, "K").into_iter().map(|d| d.predicate_name).collect();
    assert_eq!(
        names,
        vec![
            "is_unit",
            "is_http_request",
            "is_vector_4_d",
            "is_utf_8",
            "is_already_snake",
            "is_x",
        ]
    );
}

#[test]
fn naming_is_deterministic() {
    let variant = unit("UnnamedFields");
    let first = classify_variant(&variant, "MyEnumKind");
    let second = classify_variant(&variant, "MyEnumKind");
    assert_eq!(first, second);
}
