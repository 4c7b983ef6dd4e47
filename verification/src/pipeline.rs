//! The two derivation entry points a hosting toolchain invokes, one per
//! capability: shader-parameter structures and vertex-format structures.
//!
//! Each is a pure transformation from a structure declaration to either a
//! generated fragment or diagnostics. A derivation runs single-pass: resolve
//! and classify every field, build the table, and only from a valid table
//! synthesize and run the hygiene pass. Failure is structure-scoped; the
//! host goes on with other structures.

use vstd::prelude::*;

use crate::decl::{StructureDeclaration, StructureView};
use crate::diag::{has_error, Diagnostic};
use crate::synth::{
    fixup_code_spec, fixup_paths, root_alias, root_alias_spec, synthesize, synthesize_spec,
    DeriveKind, GeneratedCode, GeneratedCodeView,
};
use crate::table::{build_diags_spec, build_table, entries_spec};

verus! {

/// The fragment a valid declaration derives to: synthesis from its binding
/// table, then the hygiene pass onto its root alias.
pub open spec fn generated_spec(target: DeriveKind, s: StructureView) -> GeneratedCodeView {
    fixup_code_spec(
        synthesize_spec(target, s.name, entries_spec(s.fields)),
        root_alias_spec(s.name),
    )
}

/// Derives one structure: the generated fragment exactly when no diagnostic
/// of the pass is an error, and the full diagnostic set either way.
pub fn derive_binding(target: DeriveKind, decl: &StructureDeclaration) -> (r: (
    Option<GeneratedCode>,
    Vec<Diagnostic>,
))
    ensures
        r.1.deep_view() == build_diags_spec(decl@.fields),
        r.0 is Some <==> !has_error(build_diags_spec(decl@.fields)),
        r.0 matches Some(code) ==> code@ == generated_spec(target, decl@),
{
    let (table, diags) = build_table(&decl.fields);
    match table {
        Some(t) => {
            let raw = synthesize(target, &decl.name, &t);
            let alias = root_alias(&decl.name);
            let code = fixup_paths(&raw, &alias);
            (Some(code), diags)
        },
        None => (None, diags),
    }
}

/// Derives the shader-parameter trait implementation for one structure.
pub fn derive_shader_param(decl: &StructureDeclaration) -> (r: (
    Option<GeneratedCode>,
    Vec<Diagnostic>,
))
    ensures
        r.1.deep_view() == build_diags_spec(decl@.fields),
        r.0 is Some <==> !has_error(build_diags_spec(decl@.fields)),
        r.0 matches Some(code) ==> code@ == generated_spec(DeriveKind::ShaderParam, decl@),
{
    derive_binding(DeriveKind::ShaderParam, decl)
}

/// Derives the vertex-format trait implementation for one structure.
pub fn derive_vertex_format(decl: &StructureDeclaration) -> (r: (
    Option<GeneratedCode>,
    Vec<Diagnostic>,
))
    ensures
        r.1.deep_view() == build_diags_spec(decl@.fields),
        r.0 is Some <==> !has_error(build_diags_spec(decl@.fields)),
        r.0 matches Some(code) ==> code@ == generated_spec(DeriveKind::VertexFormat, decl@),
{
    derive_binding(DeriveKind::VertexFormat, decl)
}

} // verus!
