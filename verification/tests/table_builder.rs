use gfx_bind::classify::{classify, type_text, BindingKindTag};
use gfx_bind::decl::{
    AnnotationValue, DeclaredType, FieldDeclaration, MetadataAnnotation, ScalarKind, SourceSpan,
};
use gfx_bind::diag::{DiagnosticKind, Severity};
use gfx_bind::table::build_table;

fn at(lo: u64) -> SourceSpan {
    SourceSpan { lo, hi: lo + 1 }
}

fn plain_field(ident: &str, ty: DeclaredType, lo: u64) -> FieldDeclaration {
    FieldDeclaration {
        ident: ident.to_string(),
        ty,
        annotations: Vec::new(),
        span: at(lo),
    }
}

fn named_field(ident: &str, ty: DeclaredType, name: &str, lo: u64) -> FieldDeclaration {
    FieldDeclaration {
        ident: ident.to_string(),
        ty,
        annotations: vec![MetadataAnnotation {
            key: "name".to_string(),
            value: AnnotationValue::Text(name.to_string()),
            span: at(lo),
        }],
        span: at(lo),
    }
}

#[test]
fn fields_default_to_their_identifiers() {
    let fields = vec![
        plain_field("color", DeclaredType::Vector(ScalarKind::Float, 4), 0),
        plain_field("offset", DeclaredType::Scalar(ScalarKind::Signed), 1),
    ];
    let (table, diags) = build_table(&fields);
    assert!(diags.is_empty());
    let table = table.expect("two supported fields must build a table");
    assert_eq!(table.entries.len(), 2);
    assert_eq!(table.entries[0].field, "color");
    assert_eq!(table.entries[0].name, "color");
    assert_eq!(table.entries[0].kind, BindingKindTag::UniformVector);
    assert_eq!(table.entries[1].field, "offset");
    assert_eq!(table.entries[1].name, "offset");
    assert_eq!(table.entries[1].kind, BindingKindTag::UniformScalar);
}

#[test]
fn explicit_name_overrides_identifier() {
    let fields = vec![named_field("tex", DeclaredType::TextureHandle, "diffuse", 0)];
    let (table, diags) = build_table(&fields);
    assert!(diags.is_empty());
    let table = table.unwrap();
    assert_eq!(table.entries[0].field, "tex");
    assert_eq!(table.entries[0].name, "diffuse");
    assert_eq!(table.entries[0].kind, BindingKindTag::Texture);
}

#[test]
fn duplicate_names_invalidate_the_structure() {
    let fields = vec![
        named_field("a", DeclaredType::Scalar(ScalarKind::Float), "X", 0),
        named_field("b", DeclaredType::Scalar(ScalarKind::Float), "X", 1),
    ];
    let (table, diags) = build_table(&fields);
    assert!(table.is_none());
    assert_eq!(diags.len(), 1);
    assert_eq!(diags[0].severity(), Severity::Error);
    match &diags[0].kind {
        DiagnosticKind::DuplicateBindingName { name, first_field } => {
            assert_eq!(name, "X");
            assert_eq!(first_field, "a");
        }
        other => panic!("expected a duplicate binding name, got {:?}", other),
    }
    assert_eq!(diags[0].message(), "binding name X already used by field a");
}

#[test]
fn unsupported_type_is_reported_among_good_fields() {
    let fields = vec![
        plain_field("ok_before", DeclaredType::Scalar(ScalarKind::Unsigned), 0),
        plain_field("bad", DeclaredType::Named("Foo".to_string()), 1),
        plain_field("ok_after", DeclaredType::TextureHandle, 2),
    ];
    let (table, diags) = build_table(&fields);
    assert!(table.is_none());
    assert_eq!(diags.len(), 1);
    assert_eq!(diags[0].severity(), Severity::Error);
    assert_eq!(diags[0].span, at(1));
    match &diags[0].kind {
        DiagnosticKind::UnsupportedType { type_text } => assert_eq!(type_text, "Foo"),
        other => panic!("expected an unsupported type, got {:?}", other),
    }
    assert_eq!(diags[0].message(), "type Foo is not supported for binding");
}

#[test]
fn name_conflict_warning_does_not_block_the_table() {
    let mut field = named_field("a", DeclaredType::Scalar(ScalarKind::Float), "A", 0);
    field.annotations.push(MetadataAnnotation {
        key: "name".to_string(),
        value: AnnotationValue::Text("B".to_string()),
        span: at(1),
    });
    let (table, diags) = build_table(&vec![field]);
    assert_eq!(diags.len(), 1);
    assert_eq!(diags[0].severity(), Severity::Warning);
    let table = table.expect("a warning alone must not invalidate the table");
    assert_eq!(table.entries[0].name, "A");
}

#[test]
fn empty_structure_builds_an_empty_table() {
    let (table, diags) = build_table(&Vec::new());
    assert!(diags.is_empty());
    assert_eq!(table.unwrap().entries.len(), 0);
}

#[test]
fn classification_covers_each_supported_shape() {
    let span = at(0);
    let cases = vec![
        (DeclaredType::Scalar(ScalarKind::Signed), BindingKindTag::UniformScalar),
        (DeclaredType::Vector(ScalarKind::Float, 2), BindingKindTag::UniformVector),
        (DeclaredType::Matrix(ScalarKind::Float, 4, 4), BindingKindTag::UniformMatrix),
        (DeclaredType::TextureHandle, BindingKindTag::Texture),
        (DeclaredType::BufferHandle, BindingKindTag::RawBuffer),
        (DeclaredType::AttributeValue(ScalarKind::Unsigned, 1), BindingKindTag::VertexAttribute),
    ];
    for (ty, expected) in cases {
        assert_eq!(classify(&ty, span).unwrap(), expected);
    }
}

#[test]
fn out_of_range_shapes_do_not_classify() {
    let span = at(5);
    let bad = vec![
        DeclaredType::Vector(ScalarKind::Float, 5),
        DeclaredType::Vector(ScalarKind::Float, 1),
        DeclaredType::Matrix(ScalarKind::Float, 1, 3),
        DeclaredType::AttributeValue(ScalarKind::Signed, 0),
        DeclaredType::Named("Unknown".to_string()),
    ];
    for ty in bad {
        let diag = classify(&ty, span).unwrap_err();
        assert_eq!(diag.severity(), Severity::Error);
        assert_eq!(diag.span, span);
    }
}

#[test]
fn type_text_renders_each_shape() {
    assert_eq!(type_text(&DeclaredType::Vector(ScalarKind::Float, 4)), "f32x4");
    assert_eq!(type_text(&DeclaredType::Matrix(ScalarKind::Signed, 3, 3)), "i32x3x3");
    assert_eq!(type_text(&DeclaredType::AttributeValue(ScalarKind::Unsigned, 3)), "[u32; 3]");
    assert_eq!(type_text(&DeclaredType::TextureHandle), "TextureHandle");
    assert_eq!(type_text(&DeclaredType::BufferHandle), "BufferHandle");
    assert_eq!(type_text(&DeclaredType::Named("Foo".to_string())), "Foo");
}
