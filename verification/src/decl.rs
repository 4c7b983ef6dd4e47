//! Input data model: a structure declaration as the host's declaration stage
//! hands it over — name, ordered fields, each field's declared type and
//! metadata annotations, with source locations for diagnostic attribution.

use vstd::prelude::*;

verus! {

/// A region of the host's source text, used to attribute diagnostics.
#[derive(Clone, Copy, PartialEq, Eq, Structural, Debug)]
pub struct SourceSpan {
    pub lo: u64,
    pub hi: u64,
}

/// The element kind of a numeric scalar, vector or matrix shape.
#[derive(Clone, Copy, PartialEq, Eq, Structural, Debug)]
pub enum ScalarKind {
    Signed,
    Unsigned,
    Float,
}

/// The value attached to a metadata annotation: a string literal, or some
/// other literal form that this engine does not read.
#[derive(Debug, PartialEq, Eq)]
pub enum AnnotationValue {
    Text(String),
    Other,
}

/// Mathematical model of an annotation value.
pub enum AnnotationValueView {
    Text(Seq<char>),
    Other,
}

impl View for AnnotationValue {
    type V = AnnotationValueView;

    open spec fn view(&self) -> AnnotationValueView {
        match self {
            AnnotationValue::Text(s) => AnnotationValueView::Text(s@),
            AnnotationValue::Other => AnnotationValueView::Other,
        }
    }
}

impl DeepView for AnnotationValue {
    type V = AnnotationValueView;

    open spec fn deep_view(&self) -> AnnotationValueView {
        self.view()
    }
}

/// One metadata annotation attached to a field: a key, a value, and where it
/// stands in the source.
#[derive(Debug, PartialEq, Eq)]
pub struct MetadataAnnotation {
    pub key: String,
    pub value: AnnotationValue,
    pub span: SourceSpan,
}

/// Mathematical model of a metadata annotation.
pub struct AnnotationView {
    pub key: Seq<char>,
    pub value: AnnotationValueView,
    pub span: SourceSpan,
}

impl View for MetadataAnnotation {
    type V = AnnotationView;

    open spec fn view(&self) -> AnnotationView {
        AnnotationView { key: self.key@, value: self.value@, span: self.span }
    }
}

impl DeepView for MetadataAnnotation {
    type V = AnnotationView;

    open spec fn deep_view(&self) -> AnnotationView {
        self.view()
    }
}

/// The shape of a field's declared type, as far as classification reads it:
/// numeric scalar, vector and matrix shapes, the recognized handle wrappers,
/// a fixed-size attribute-value array, or any other named type.
#[derive(Debug, PartialEq, Eq)]
pub enum DeclaredType {
    Scalar(ScalarKind),
    Vector(ScalarKind, u64),
    Matrix(ScalarKind, u64, u64),
    TextureHandle,
    BufferHandle,
    AttributeValue(ScalarKind, u64),
    Named(String),
}

/// Mathematical model of a declared type shape.
pub enum DeclaredTypeView {
    Scalar(ScalarKind),
    Vector(ScalarKind, u64),
    Matrix(ScalarKind, u64, u64),
    TextureHandle,
    BufferHandle,
    AttributeValue(ScalarKind, u64),
    Named(Seq<char>),
}

impl View for DeclaredType {
    type V = DeclaredTypeView;

    open spec fn view(&self) -> DeclaredTypeView {
        match self {
            DeclaredType::Scalar(k) => DeclaredTypeView::Scalar(*k),
            DeclaredType::Vector(k, n) => DeclaredTypeView::Vector(*k, *n),
            DeclaredType::Matrix(k, r, c) => DeclaredTypeView::Matrix(*k, *r, *c),
            DeclaredType::TextureHandle => DeclaredTypeView::TextureHandle,
            DeclaredType::BufferHandle => DeclaredTypeView::BufferHandle,
            DeclaredType::AttributeValue(k, n) => DeclaredTypeView::AttributeValue(*k, *n),
            DeclaredType::Named(s) => DeclaredTypeView::Named(s@),
        }
    }
}

impl DeepView for DeclaredType {
    type V = DeclaredTypeView;

    open spec fn deep_view(&self) -> DeclaredTypeView {
        self.view()
    }
}

impl Clone for DeclaredType {
    fn clone(&self) -> (r: Self)
        ensures
            r@ == self@,
    {
        match self {
            DeclaredType::Scalar(k) => DeclaredType::Scalar(*k),
            DeclaredType::Vector(k, n) => DeclaredType::Vector(*k, *n),
            DeclaredType::Matrix(k, r, c) => DeclaredType::Matrix(*k, *r, *c),
            DeclaredType::TextureHandle => DeclaredType::TextureHandle,
            DeclaredType::BufferHandle => DeclaredType::BufferHandle,
            DeclaredType::AttributeValue(k, n) => DeclaredType::AttributeValue(*k, *n),
            DeclaredType::Named(s) => DeclaredType::Named(s.clone()),
        }
    }
}

/// One field of a structure declaration: its identifier, declared type,
/// attached metadata annotations in declaration order, and source location.
#[derive(Debug, PartialEq, Eq)]
pub struct FieldDeclaration {
    pub ident: String,
    pub ty: DeclaredType,
    pub annotations: Vec<MetadataAnnotation>,
    pub span: SourceSpan,
}

/// Mathematical model of a field declaration.
pub struct FieldView {
    pub ident: Seq<char>,
    pub ty: DeclaredTypeView,
    pub annotations: Seq<AnnotationView>,
    pub span: SourceSpan,
}

impl View for FieldDeclaration {
    type V = FieldView;

    open spec fn view(&self) -> FieldView {
        FieldView {
            ident: self.ident@,
            ty: self.ty@,
            annotations: self.annotations.deep_view(),
            span: self.span,
        }
    }
}

impl DeepView for FieldDeclaration {
    type V = FieldView;

    open spec fn deep_view(&self) -> FieldView {
        self.view()
    }
}

/// A structure declaration as one derivation request consumes it: the
/// structure's name and its fields in declaration order.
#[derive(Debug, PartialEq, Eq)]
pub struct StructureDeclaration {
    pub name: String,
    pub fields: Vec<FieldDeclaration>,
    pub span: SourceSpan,
}

/// Mathematical model of a structure declaration.
pub struct StructureView {
    pub name: Seq<char>,
    pub fields: Seq<FieldView>,
    pub span: SourceSpan,
}

impl View for StructureDeclaration {
    type V = StructureView;

    open spec fn view(&self) -> StructureView {
        StructureView { name: self.name@, fields: self.fields.deep_view(), span: self.span }
    }
}

impl DeepView for StructureDeclaration {
    type V = StructureView;

    open spec fn deep_view(&self) -> StructureView {
        self.view()
    }
}

} // verus!
