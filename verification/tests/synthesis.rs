use gfx_bind::classify::BindingKindTag;
use gfx_bind::decl::{
    AnnotationValue, DeclaredType, FieldDeclaration, MetadataAnnotation, ScalarKind,
    SourceSpan, StructureDeclaration,
};
use gfx_bind::diag::{report, Diagnostic, DiagnosticKind, Severity};
use gfx_bind::pipeline::{derive_shader_param, derive_vertex_format};
use gfx_bind::synth::{fold_path, CodePath, DeriveKind};

fn here(lo: u64) -> SourceSpan {
    SourceSpan { lo, hi: lo + 1 }
}

fn bare_field(ident: &str, ty: DeclaredType, lo: u64) -> FieldDeclaration {
    FieldDeclaration {
        ident: ident.to_string(),
        ty,
        annotations: Vec::new(),
        span: here(lo),
    }
}

fn renamed_field(ident: &str, ty: DeclaredType, name: &str, lo: u64) -> FieldDeclaration {
    FieldDeclaration {
        ident: ident.to_string(),
        ty,
        annotations: vec![MetadataAnnotation {
            key: "name".to_string(),
            value: AnnotationValue::Text(name.to_string()),
            span: here(lo),
        }],
        span: here(lo),
    }
}

fn params_declaration() -> StructureDeclaration {
    StructureDeclaration {
        name: "Params".to_string(),
        fields: vec![
            bare_field("color", DeclaredType::Vector(ScalarKind::Float, 4), 0),
            renamed_field("tex", DeclaredType::TextureHandle, "diffuse", 1),
        ],
        span: here(10),
    }
}

fn segments(path: &CodePath) -> Vec<&str> {
    path.segments.iter().map(|s| s.as_str()).collect()
}

#[test]
fn end_to_end_params_structure() {
    let (code, diags) = derive_shader_param(&params_declaration());
    assert!(diags.is_empty());
    let code = code.expect("a valid structure must synthesize");
    assert_eq!(code.target, DeriveKind::ShaderParam);
    assert_eq!(code.structure_name, "Params");
    assert_eq!(code.bindings.len(), 2);

    assert_eq!(code.bindings[0].lookup.logical_name, "color");
    assert_eq!(code.bindings[0].lookup.kind, BindingKindTag::UniformVector);
    assert_eq!(code.bindings[0].access.field_ident, "color");
    assert_eq!(code.bindings[1].lookup.logical_name, "diffuse");
    assert_eq!(code.bindings[1].lookup.kind, BindingKindTag::Texture);
    assert_eq!(code.bindings[1].access.field_ident, "tex");

    assert_eq!(code.root_module.module_name, "__gfx_crate_root_for_Params");
    assert_eq!(code.root_module.crate_name, "gfx");
    assert_eq!(code.root_module.inner_alias, "gfx_");

    let lookup = &code.bindings[1].lookup.lookup_path;
    assert!(!lookup.global);
    assert_eq!(
        segments(lookup),
        vec!["__gfx_crate_root_for_Params", "gfx", "find_texture"]
    );
    let convert = &code.bindings[1].access.convert_path;
    assert!(!convert.global);
    assert_eq!(
        segments(convert),
        vec!["self", "__gfx_crate_root_for_Params", "gfx", "as_texture"]
    );
}

#[test]
fn synthesis_is_deterministic() {
    let (code_a, diags_a) = derive_shader_param(&params_declaration());
    let (code_b, diags_b) = derive_shader_param(&params_declaration());
    assert_eq!(code_a, code_b);
    assert_eq!(diags_a, diags_b);
}

#[test]
fn reordering_fields_reorders_the_bindings() {
    let forward = params_declaration();
    let backward = StructureDeclaration {
        name: "Params".to_string(),
        fields: vec![
            renamed_field("tex", DeclaredType::TextureHandle, "diffuse", 1),
            bare_field("color", DeclaredType::Vector(ScalarKind::Float, 4), 0),
        ],
        span: here(10),
    };
    let (code_f, diags_f) = derive_shader_param(&forward);
    let (code_b, diags_b) = derive_shader_param(&backward);
    assert!(diags_f.is_empty() && diags_b.is_empty());
    let code_f = code_f.unwrap();
    let code_b = code_b.unwrap();
    assert_eq!(code_f.bindings.len(), 2);
    assert_eq!(code_b.bindings.len(), 2);
    assert_eq!(code_f.bindings[0], code_b.bindings[1]);
    assert_eq!(code_f.bindings[1], code_b.bindings[0]);
}

#[test]
fn vertex_format_pipeline_tags_its_fragment() {
    let decl = StructureDeclaration {
        name: "Vertex".to_string(),
        fields: vec![bare_field("pos", DeclaredType::AttributeValue(ScalarKind::Float, 3), 0)],
        span: here(0),
    };
    let (code, diags) = derive_vertex_format(&decl);
    assert!(diags.is_empty());
    let code = code.unwrap();
    assert_eq!(code.target, DeriveKind::VertexFormat);
    assert_eq!(code.bindings[0].lookup.kind, BindingKindTag::VertexAttribute);
}

#[test]
fn errors_suppress_the_fragment() {
    let decl = StructureDeclaration {
        name: "Broken".to_string(),
        fields: vec![
            renamed_field("a", DeclaredType::Scalar(ScalarKind::Float), "X", 0),
            renamed_field("b", DeclaredType::Scalar(ScalarKind::Float), "X", 1),
        ],
        span: here(0),
    };
    let (code, diags) = derive_shader_param(&decl);
    assert!(code.is_none());
    assert_eq!(diags.len(), 1);
    assert_eq!(diags[0].severity(), Severity::Error);
}

#[test]
fn hygiene_rewrites_only_marker_paths() {
    let root = "__gfx_crate_root_for_Params".to_string();

    let user = CodePath {
        global: true,
        segments: vec!["std".to_string(), "vec".to_string(), "Vec".to_string()],
    };
    let folded = fold_path(&user, &root);
    assert_eq!(folded, user);

    let self_user = CodePath {
        global: false,
        segments: vec!["self".to_string(), "other".to_string()],
    };
    assert_eq!(fold_path(&self_user, &root), self_user);

    let marked = CodePath {
        global: true,
        segments: vec!["__gfx_crate_root".to_string(), "gfx".to_string()],
    };
    let folded = fold_path(&marked, &root);
    assert!(!folded.global);
    assert_eq!(segments(&folded), vec!["__gfx_crate_root_for_Params", "gfx"]);

    let self_marked = CodePath {
        global: false,
        segments: vec![
            "self".to_string(),
            "__gfx_crate_root".to_string(),
            "gfx".to_string(),
        ],
    };
    let folded = fold_path(&self_marked, &root);
    assert!(!folded.global);
    assert_eq!(
        segments(&folded),
        vec!["self", "__gfx_crate_root_for_Params", "gfx"]
    );
}

#[test]
fn warnings_do_not_suppress_the_fragment() {
    let mut field = renamed_field("color", DeclaredType::Vector(ScalarKind::Float, 4), "tint", 0);
    field.annotations.push(MetadataAnnotation {
        key: "name".to_string(),
        value: AnnotationValue::Text("shade".to_string()),
        span: here(1),
    });
    let decl = StructureDeclaration {
        name: "Tinted".to_string(),
        fields: vec![field],
        span: here(0),
    };
    let (code, diags) = derive_shader_param(&decl);
    assert_eq!(diags.len(), 1);
    assert_eq!(diags[0].severity(), Severity::Warning);
    let code = code.expect("a warning alone must not suppress the fragment");
    assert_eq!(code.bindings[0].lookup.logical_name, "tint");
}

#[test]
fn empty_path_survives_the_hygiene_pass() {
    let root = "__gfx_crate_root_for_Empty".to_string();
    let empty = CodePath { global: false, segments: Vec::new() };
    assert_eq!(fold_path(&empty, &root), empty);
}

#[test]
fn report_renders_every_message_in_order() {
    let diags = vec![
        Diagnostic {
            kind: DiagnosticKind::NameConflict {
                kept: "A".to_string(),
                ignored: "B".to_string(),
            },
            span: here(0),
        },
        Diagnostic {
            kind: DiagnosticKind::UnsupportedType { type_text: "Foo".to_string() },
            span: here(1),
        },
    ];
    let rendered = report(&diags);
    assert_eq!(
        rendered,
        vec![
            "extra binding name B ignored in favour of A".to_string(),
            "type Foo is not supported for binding".to_string(),
        ]
    );
}
