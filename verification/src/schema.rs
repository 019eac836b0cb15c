//! The structural description of a type declaration.
//!
//! A [`SumTypeDecl`] carries what the derivation reads of a declaration: its
//! name, its visibility, its generics and its variants in declaration order.
//! Identifiers, visibility markers, generics and field types are held as
//! source text, so a description can be written down by hand as well as taken
//! from a parsed declaration.

use vstd::prelude::*;

verus! {

/// The models of the items of a sequence, in order.
pub open spec fn views<T: View>(items: Seq<T>) -> Seq<T::V> {
    Seq::new(items.len(), |i: int| items[i]@)
}

/// One named field of a variant.
#[derive(Debug, PartialEq, Eq)]
pub struct NamedField {
    /// The field's identifier.
    pub name: String,
    /// The field's type, as source text.
    pub ty: String,
}

/// Mathematical model of a [`NamedField`].
#[verifier::ext_equal]
pub struct NamedFieldView {
    pub name: Seq<char>,
    pub ty: Seq<char>,
}

impl View for NamedField {
    type V = NamedFieldView;

    open spec fn view(&self) -> NamedFieldView {
        NamedFieldView { name: self.name@, ty: self.ty@ }
    }
}

/// The payload shape of a variant.
#[derive(Debug, PartialEq, Eq)]
pub enum Shape {
    /// No payload: `V`.
    Empty,
    /// Named fields, any number of them: `V { a: A, b: B }`.
    NamedFields(Vec<NamedField>),
    /// Positional fields, given by their types in order: `V(A, B)`.
    UnnamedFields(Vec<String>),
}

/// Mathematical model of a [`Shape`].
#[verifier::ext_equal]
pub enum ShapeView {
    Empty,
    NamedFields(Seq<NamedFieldView>),
    UnnamedFields(Seq<Seq<char>>),
}

impl ShapeView {
    /// Number of payload fields a value of this shape carries.
    pub open spec fn arity(self) -> nat {
        match self {
            ShapeView::Empty => 0,
            ShapeView::NamedFields(fields) => fields.len(),
            ShapeView::UnnamedFields(types) => types.len(),
        }
    }
}

impl View for Shape {
    type V = ShapeView;

    open spec fn view(&self) -> ShapeView {
        match self {
            Shape::Empty => ShapeView::Empty,
            Shape::NamedFields(fields) => ShapeView::NamedFields(views(fields@)),
            Shape::UnnamedFields(types) => ShapeView::UnnamedFields(views(types@)),
        }
    }
}

/// One case of a sum type.
#[derive(Debug, PartialEq, Eq)]
pub struct VariantDecl {
    /// The variant's identifier.
    pub identifier: String,
    /// The variant's payload shape.
    pub shape: Shape,
}

/// Mathematical model of a [`VariantDecl`].
#[verifier::ext_equal]
pub struct VariantDeclView {
    pub identifier: Seq<char>,
    pub shape: ShapeView,
}

impl View for VariantDecl {
    type V = VariantDeclView;

    open spec fn view(&self) -> VariantDeclView {
        VariantDeclView { identifier: self.identifier@, shape: self.shape@ }
    }
}

/// The generics of a declaration, split the way an implementation block
/// needs them. Each part is source text and is empty when the declaration has
/// no such part.
#[derive(Debug, PartialEq, Eq)]
pub struct Generics {
    /// Parameters with their bounds, in angle brackets: `<T: Clone>`.
    pub impl_generics: String,
    /// Parameters alone, in angle brackets: `<T>`.
    pub type_generics: String,
    /// The where clause, keyword included: `where T: Copy`.
    pub where_clause: String,
}

/// Mathematical model of [`Generics`].
#[verifier::ext_equal]
pub struct GenericsView {
    pub impl_generics: Seq<char>,
    pub type_generics: Seq<char>,
    pub where_clause: Seq<char>,
}

impl View for Generics {
    type V = GenericsView;

    open spec fn view(&self) -> GenericsView {
        GenericsView {
            impl_generics: self.impl_generics@,
            type_generics: self.type_generics@,
            where_clause: self.where_clause@,
        }
    }
}

impl Clone for Generics {
    fn clone(&self) -> (copy: Self)
        ensures
            copy@ == self@,
    {
        Generics {
            impl_generics: self.impl_generics.clone(),
            type_generics: self.type_generics.clone(),
            where_clause: self.where_clause.clone(),
        }
    }
}

/// What kind of type a declaration declares.
#[derive(Debug, PartialEq, Eq)]
pub enum TypeData {
    /// A tagged union with its variants in declaration order.
    Enum(Vec<VariantDecl>),
    /// A product type.
    Struct,
    /// An untagged union.
    Union,
}

/// Mathematical model of [`TypeData`].
#[verifier::ext_equal]
pub enum TypeDataView {
    Enum(Seq<VariantDeclView>),
    Struct,
    Union,
}

impl View for TypeData {
    type V = TypeDataView;

    open spec fn view(&self) -> TypeDataView {
        match self {
            TypeData::Enum(variants) => TypeDataView::Enum(views(variants@)),
            TypeData::Struct => TypeDataView::Struct,
            TypeData::Union => TypeDataView::Union,
        }
    }
}

/// The declaration companion items are derived for.
#[derive(Debug, PartialEq, Eq)]
pub struct SumTypeDecl {
    /// The type's name.
    pub name: String,
    /// The type's visibility marker, as source text; empty for a private
    /// type.
    pub visibility: String,
    /// The type's generics.
    pub generics: Generics,
    /// The type's variants, if it is a tagged union.
    pub data: TypeData,
}

/// Mathematical model of a [`SumTypeDecl`].
#[verifier::ext_equal]
pub struct SumTypeDeclView {
    pub name: Seq<char>,
    pub visibility: Seq<char>,
    pub generics: GenericsView,
    pub data: TypeDataView,
}

impl SumTypeDeclView {
    /// Whether the declaration is a tagged union.
    pub open spec fn is_enum(self) -> bool {
        self.data is Enum
    }

    /// The variants in declaration order; empty unless the declaration is a
    /// tagged union.
    pub open spec fn variants(self) -> Seq<VariantDeclView> {
        match self.data {
            TypeDataView::Enum(variants) => variants,
            _ => Seq::empty(),
        }
    }

    /// Whether no identifier names two variants. Every declaration that the
    /// host language accepts has this property; the derivation itself does
    /// not depend on it.
    pub open spec fn distinct_identifiers(self) -> bool {
        forall|i: int, j: int|
            0 <= i < j < self.variants().len() ==> self.variants()[i].identifier
                != self.variants()[j].identifier
    }
}

impl View for SumTypeDecl {
    type V = SumTypeDeclView;

    open spec fn view(&self) -> SumTypeDeclView {
        SumTypeDeclView {
            name: self.name@,
            visibility: self.visibility@,
            generics: self.generics@,
            data: self.data@,
        }
    }
}

impl SumTypeDecl {
    /// Whether the declaration is a tagged union.
    pub fn is_enum(&self) -> (b: bool)
        ensures
            b == self@.is_enum(),
    {
        match &self.data {
            TypeData::Enum(_) => true,
            _ => false,
        }
    }
}

} // verus!
