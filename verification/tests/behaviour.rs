use nice_enum::nice_enum_impl;
use nice_enum::schema::{Generics, NamedField, Shape, SumTypeDecl, TypeData, VariantDecl};
use proc_macro2::TokenStream;
use std::str::FromStr;

// A sum type with one variant of each shape class, and below it the
// declarations that are derived for it, compiled as part of this file.

#[derive(Debug, PartialEq)]
pub enum Sample {
    Unit,
    NamedFields { a: u32 },
    UnnamedFields(u32),
    Pair(u8, u8),
    Nothing(),
}

#[derive(Debug, Clone, Copy, PartialEq, Eq, PartialOrd, Ord, Hash)]
pub enum SampleKind {
    Unit,
    NamedFields,
    UnnamedFields,
    Pair,
    Nothing,
}

impl Sample {
    pub fn kind(&self) -> SampleKind {
        match self {
            Self::Unit => SampleKind::Unit,
            Self::NamedFields { .. } => SampleKind::NamedFields,
            Self::UnnamedFields(_) => SampleKind::UnnamedFields,
            Self::Pair(..) => SampleKind::Pair,
            Self::Nothing(..) => SampleKind::Nothing,
        }
    }
    pub fn is_unit(&self) -> bool {
        matches!(self.kind(), SampleKind::Unit)
    }
    pub fn is_named_fields(&self) -> bool {
        matches!(self.kind(), SampleKind::NamedFields)
    }
    pub fn is_unnamed_fields(&self) -> bool {
        matches!(self.kind(), SampleKind::UnnamedFields)
    }
    pub fn is_pair(&self) -> bool {
        matches!(self.kind(), SampleKind::Pair)
    }
    pub fn is_nothing(&self) -> bool {
        matches!(self.kind(), SampleKind::Nothing)
    }
    pub fn as_unnamed_fields(&self) -> Option<&u32> {
        match self {
            Self::UnnamedFields(v) => Some(v),
            _ => None,
        }
    }
    pub fn as_unnamed_fields_mut(&mut self) -> Option<&mut u32> {
        match self {
            Self::UnnamedFields(v) => Some(v),
            _ => None,
        }
    }
    pub fn into_unnamed_fields(self) -> Option<u32> {
        match self {
            Self::UnnamedFields(v) => Some(v),
            _ => None,
        }
    }
}

const DERIVED: &str = "
#[derive(Debug, Clone, Copy, PartialEq, Eq, PartialOrd, Ord, Hash)]
pub enum SampleKind {
    Unit,
    NamedFields,
    UnnamedFields,
    Pair,
    Nothing,
}

impl Sample {
    pub fn kind(&self) -> SampleKind {
        match self {
            Self::Unit => SampleKind::Unit,
            Self::NamedFields { .. } => SampleKind::NamedFields,
            Self::UnnamedFields(_) => SampleKind::UnnamedFields,
            Self::Pair(..) => SampleKind::Pair,
            Self::Nothing(..) => SampleKind::Nothing,
        }
    }
    pub fn is_unit(&self) -> bool {
        matches!(self.kind(), SampleKind::Unit)
    }
    pub fn is_named_fields(&self) -> bool {
        matches!(self.kind(), SampleKind::NamedFields)
    }
    pub fn is_unnamed_fields(&self) -> bool {
        matches!(self.kind(), SampleKind::UnnamedFields)
    }
    pub fn is_pair(&self) -> bool {
        matches!(self.kind(), SampleKind::Pair)
    }
    pub fn is_nothing(&self) -> bool {
        matches!(self.kind(), SampleKind::Nothing)
    }
    pub fn as_unnamed_fields(&self) -> Option<&u32> {
        match self {
            Self::UnnamedFields(v) => Some(v),
            _ => None,
        }
    }
    pub fn as_unnamed_fields_mut(&mut self) -> Option<&mut u32> {
        match self {
            Self::UnnamedFields(v) => Some(v),
            _ => None,
        }
    }
    pub fn into_unnamed_fields(self) -> Option<u32> {
        match self {
            Self::UnnamedFields(v) => Some(v),
            _ => None,
        }
    }
}
";

fn sample_decl() -> SumTypeDecl {
    SumTypeDecl {
        name: "Sample".to_string(),
        visibility: "pub".to_string(),
        generics: Generics {
            impl_generics: String::new(),
            type_generics: String::new(),
            where_clause: String::new(),
        },
        data: TypeData::Enum(vec![
            VariantDecl { identifier: "Unit".to_string(), shape: Shape::Empty },
            VariantDecl {
                identifier: "NamedFields".to_string(),
                shape: Shape::NamedFields(vec![NamedField {
                    name: "a".to_string(),
                    ty: "u32".to_string(),
                }]),
            },
            VariantDecl {
                identifier: "UnnamedFields".to_string(),
                shape: Shape::UnnamedFields(vec!["u32".to_string()]),
            },
            VariantDecl {
                identifier: "Pair".to_string(),
                shape: Shape::UnnamedFields(vec!["u8".to_string(), "u8".to_string()]),
            },
            VariantDecl { identifier: "Nothing".to_string(), shape: Shape::UnnamedFields(vec![]) },
        ]),
    }
}

fn samples() -> Vec<Sample> {
    vec![
        Sample::Unit,
        Sample::NamedFields { a: 1 },
        Sample::UnnamedFields(2),
        Sample::Pair(3, 4),
        Sample::Nothing(),
    ]
}

#[test]
fn compiled_declarations_are_the_derived_ones() {
    let derived = nice_enum_impl(sample_decl());
    assert_eq!(
        TokenStream::from_str(&derived).unwrap().to_string(),
        TokenStream::from_str(DERIVED).unwrap().to_string()
    );
}

#[test]
fn kind_cases_keep_declaration_order() {
    let kinds: Vec<SampleKind> = samples().iter().map(|x| x.kind()).collect();
    assert_eq!(
        kinds,
        vec![
            SampleKind::Unit,
            SampleKind::NamedFields,
            SampleKind::UnnamedFields,
            SampleKind::Pair,
            SampleKind::Nothing,
        ]
    );
    assert!(kinds.windows(2).all(|pair| pair[0] < pair[1]));
}

#[test]
fn kind_is_defined_on_every_value() {
    assert_eq!(Sample::Unit.kind(), SampleKind::Unit);
    assert_eq!(Sample::NamedFields { a: 0 }.kind(), SampleKind::NamedFields);
    assert_eq!(Sample::NamedFields { a: u32::MAX }.kind(), SampleKind::NamedFields);
    assert_eq!(Sample::UnnamedFields(0).kind(), SampleKind::UnnamedFields);
    assert_eq!(Sample::Pair(0, 255).kind(), SampleKind::Pair);
    assert_eq!(Sample::Nothing().kind(), SampleKind::Nothing);
}

#[test]
fn predicates_agree_with_the_tag() {
    for x in samples() {
        assert_eq!(x.is_unit(), x.kind() == SampleKind::Unit);
        assert_eq!(x.is_named_fields(), x.kind() == SampleKind::NamedFields);
        assert_eq!(x.is_unnamed_fields(), x.kind() == SampleKind::UnnamedFields);
        assert_eq!(x.is_pair(), x.kind() == SampleKind::Pair);
        assert_eq!(x.is_nothing(), x.kind() == SampleKind::Nothing);
    }
}

#[test]
fn borrowing_accessor_is_sound() {
    for x in samples() {
        assert_eq!(x.as_unnamed_fields().is_some(), x.is_unnamed_fields());
    }
    assert_eq!(Sample::UnnamedFields(17).as_unnamed_fields(), Some(&17));
    assert_eq!(Sample::Pair(1, 7).as_unnamed_fields(), None);
}

#[test]
fn mutation_changes_the_payload_only() {
    let mut x = Sample::UnnamedFields(1);
    *x.as_unnamed_fields_mut().unwrap() = 99;
    assert_eq!(x.kind(), SampleKind::UnnamedFields);
    assert_eq!(x, Sample::UnnamedFields(99));
    let mut y = Sample::NamedFields { a: 5 };
    assert_eq!(y.as_unnamed_fields_mut(), None);
    assert_eq!(y, Sample::NamedFields { a: 5 });
}

#[test]
fn consuming_accessor_returns_the_payload() {
    assert_eq!(Sample::UnnamedFields(23).into_unnamed_fields(), Some(23));
    assert_eq!(Sample::Unit.into_unnamed_fields(), None);
    assert_eq!(Sample::NamedFields { a: 23 }.into_unnamed_fields(), None);
    assert_eq!(Sample::Pair(2, 3).into_unnamed_fields(), None);
    assert_eq!(Sample::Nothing().into_unnamed_fields(), None);
}
