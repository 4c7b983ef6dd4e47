use gfx_bind::decl::{AnnotationValue, MetadataAnnotation, SourceSpan};
use gfx_bind::diag::{DiagnosticKind, Severity};
use gfx_bind::resolve::{is_name_annotation, resolve_name};

fn span_at(lo: u64) -> SourceSpan {
    SourceSpan { lo, hi: lo + 1 }
}

fn name_annotation(text: &str, lo: u64) -> MetadataAnnotation {
    MetadataAnnotation {
        key: "name".to_string(),
        value: AnnotationValue::Text(text.to_string()),
        span: span_at(lo),
    }
}

#[test]
fn only_string_valued_name_annotations_participate() {
    assert!(is_name_annotation(&name_annotation("X", 0)));
    assert!(!is_name_annotation(&MetadataAnnotation {
        key: "location".to_string(),
        value: AnnotationValue::Text("L".to_string()),
        span: span_at(0),
    }));
    assert!(!is_name_annotation(&MetadataAnnotation {
        key: "name".to_string(),
        value: AnnotationValue::Other,
        span: span_at(0),
    }));
}

#[test]
fn no_annotations_resolve_to_none() {
    let (name, diags) = resolve_name(&Vec::new());
    assert_eq!(name, None);
    assert!(diags.is_empty());
}

#[test]
fn single_name_annotation_resolves() {
    let annots = vec![name_annotation("X", 3)];
    let (name, diags) = resolve_name(&annots);
    assert_eq!(name, Some("X".to_string()));
    assert_eq!(diags.len(), 0);
}

#[test]
fn other_keys_and_values_are_ignored() {
    let annots = vec![
        MetadataAnnotation {
            key: "location".to_string(),
            value: AnnotationValue::Text("L".to_string()),
            span: span_at(0),
        },
        MetadataAnnotation {
            key: "name".to_string(),
            value: AnnotationValue::Other,
            span: span_at(1),
        },
        name_annotation("X", 2),
    ];
    let (name, diags) = resolve_name(&annots);
    assert_eq!(name, Some("X".to_string()));
    assert_eq!(diags.len(), 0);
}

#[test]
fn conflicting_names_keep_first_and_warn() {
    let annots = vec![name_annotation("A", 0), name_annotation("B", 7)];
    let (name, diags) = resolve_name(&annots);
    assert_eq!(name, Some("A".to_string()));
    assert_eq!(diags.len(), 1);
    assert_eq!(diags[0].severity(), Severity::Warning);
    assert_eq!(diags[0].span, span_at(7));
    match &diags[0].kind {
        DiagnosticKind::NameConflict { kept, ignored } => {
            assert_eq!(kept, "A");
            assert_eq!(ignored, "B");
        }
        other => panic!("expected a name conflict, got {:?}", other),
    }
    let message = diags[0].message();
    assert_eq!(message, "extra binding name B ignored in favour of A");
    assert!(message.contains('A') && message.contains('B'));
}

#[test]
fn every_extra_name_earns_its_own_warning() {
    let annots = vec![
        name_annotation("A", 0),
        name_annotation("B", 1),
        name_annotation("C", 2),
    ];
    let (name, diags) = resolve_name(&annots);
    assert_eq!(name, Some("A".to_string()));
    assert_eq!(diags.len(), 2);
    match &diags[0].kind {
        DiagnosticKind::NameConflict { kept, ignored } => {
            assert_eq!(kept, "A");
            assert_eq!(ignored, "B");
        }
        other => panic!("expected a name conflict, got {:?}", other),
    }
    match &diags[1].kind {
        DiagnosticKind::NameConflict { kept, ignored } => {
            assert_eq!(kept, "A");
            assert_eq!(ignored, "C");
        }
        other => panic!("expected a name conflict, got {:?}", other),
    }
}
