//! Code synthesizer: turns a valid binding table into the generated trait
//! implementation fragment, and the hygiene pass that rewrites internally
//! generated paths.
//!
//! The fragment carries, per table entry, a bind-time lookup (fetch the
//! runtime handle registered under the entry's resolved name and kind; a
//! missing handle fails at run time, in the rendering library) and a value
//! access (read the field and convert it as the kind requires). All
//! internally generated paths start from a reserved marker; the hygiene pass
//! rewrites that marker to the structure's root alias so the references
//! resolve wherever the fragment is spliced, and touches no other path.

use vstd::prelude::*;

use crate::classify::BindingKindTag;
use crate::table::{distinct_names, BindingEntryView, BindingTable};

verus! {

/// Which trait implementation a derivation emits.
#[derive(Clone, Copy, PartialEq, Eq, Structural, Debug)]
pub enum DeriveKind {
    ShaderParam,
    VertexFormat,
}

/// A path reference inside generated code.
#[derive(Debug, PartialEq, Eq)]
pub struct CodePath {
    pub global: bool,
    pub segments: Vec<String>,
}

/// Mathematical model of a generated path.
pub struct CodePathView {
    pub global: bool,
    pub segments: Seq<Seq<char>>,
}

impl View for CodePath {
    type V = CodePathView;

    open spec fn view(&self) -> CodePathView {
        CodePathView { global: self.global, segments: self.segments.deep_view() }
    }
}

impl DeepView for CodePath {
    type V = CodePathView;

    open spec fn deep_view(&self) -> CodePathView {
        self.view()
    }
}

/// The module the fragment opens with: under the structure's root alias it
/// re-exports the rendering library, so every generated reference resolves
/// through it no matter where the fragment is spliced.
#[derive(Debug, PartialEq, Eq)]
pub struct ReexportModule {
    pub module_name: String,
    pub crate_name: String,
    pub inner_alias: String,
}

/// Mathematical model of the re-export module.
pub struct ReexportModuleView {
    pub module_name: Seq<char>,
    pub crate_name: Seq<char>,
    pub inner_alias: Seq<char>,
}

impl View for ReexportModule {
    type V = ReexportModuleView;

    open spec fn view(&self) -> ReexportModuleView {
        ReexportModuleView {
            module_name: self.module_name@,
            crate_name: self.crate_name@,
            inner_alias: self.inner_alias@,
        }
    }
}

impl DeepView for ReexportModule {
    type V = ReexportModuleView;

    open spec fn deep_view(&self) -> ReexportModuleView {
        self.view()
    }
}

/// Bind-time lookup for one entry: fetch the runtime handle registered under
/// the resolved name, through the named lookup operation of the re-exported
/// rendering library.
#[derive(Debug, PartialEq, Eq)]
pub struct HandleLookup {
    pub logical_name: String,
    pub kind: BindingKindTag,
    pub lookup_path: CodePath,
}

/// Mathematical model of a bind-time lookup.
pub struct HandleLookupView {
    pub logical_name: Seq<char>,
    pub kind: BindingKindTag,
    pub lookup_path: CodePathView,
}

impl View for HandleLookup {
    type V = HandleLookupView;

    open spec fn view(&self) -> HandleLookupView {
        HandleLookupView {
            logical_name: self.logical_name@,
            kind: self.kind,
            lookup_path: self.lookup_path@,
        }
    }
}

impl DeepView for HandleLookup {
    type V = HandleLookupView;

    open spec fn deep_view(&self) -> HandleLookupView {
        self.view()
    }
}

/// Value access for one entry: read the named field of a structure instance
/// and convert it through the conversion the binding kind requires.
#[derive(Debug, PartialEq, Eq)]
pub struct FieldAccess {
    pub field_ident: String,
    pub kind: BindingKindTag,
    pub convert_path: CodePath,
}

/// Mathematical model of a value access.
pub struct FieldAccessView {
    pub field_ident: Seq<char>,
    pub kind: BindingKindTag,
    pub convert_path: CodePathView,
}

impl View for FieldAccess {
    type V = FieldAccessView;

    open spec fn view(&self) -> FieldAccessView {
        FieldAccessView {
            field_ident: self.field_ident@,
            kind: self.kind,
            convert_path: self.convert_path@,
        }
    }
}

impl DeepView for FieldAccess {
    type V = FieldAccessView;

    open spec fn deep_view(&self) -> FieldAccessView {
        self.view()
    }
}

/// The generated operations for one binding table entry.
#[derive(Debug, PartialEq, Eq)]
pub struct GeneratedBinding {
    pub lookup: HandleLookup,
    pub access: FieldAccess,
}

/// Mathematical model of one generated binding.
pub struct GeneratedBindingView {
    pub lookup: HandleLookupView,
    pub access: FieldAccessView,
}

impl View for GeneratedBinding {
    type V = GeneratedBindingView;

    open spec fn view(&self) -> GeneratedBindingView {
        GeneratedBindingView { lookup: self.lookup@, access: self.access@ }
    }
}

impl DeepView for GeneratedBinding {
    type V = GeneratedBindingView;

    open spec fn deep_view(&self) -> GeneratedBindingView {
        self.view()
    }
}

/// The code fragment one derivation emits: a trait implementation for the
/// structure, opening with the re-export module and carrying one generated
/// binding per table entry, in table order.
#[derive(Debug, PartialEq, Eq)]
pub struct GeneratedCode {
    pub target: DeriveKind,
    pub structure_name: String,
    pub root_module: ReexportModule,
    pub bindings: Vec<GeneratedBinding>,
}

/// Mathematical model of a generated fragment.
pub struct GeneratedCodeView {
    pub target: DeriveKind,
    pub structure_name: Seq<char>,
    pub root_module: ReexportModuleView,
    pub bindings: Seq<GeneratedBindingView>,
}

impl View for GeneratedCode {
    type V = GeneratedCodeView;

    open spec fn view(&self) -> GeneratedCodeView {
        GeneratedCodeView {
            target: self.target,
            structure_name: self.structure_name@,
            root_module: self.root_module@,
            bindings: self.bindings.deep_view(),
        }
    }
}

impl DeepView for GeneratedCode {
    type V = GeneratedCodeView;

    open spec fn deep_view(&self) -> GeneratedCodeView {
        self.view()
    }
}

/// The reserved marker every internally generated reference starts from;
/// the leading underscores keep it out of the user's identifier space.
pub open spec fn root_marker() -> Seq<char> {
    "__gfx_crate_root"@
}

/// The root alias the fragment for one structure re-exports the rendering
/// library under: the reserved marker extended with the structure's name, so
/// fragments for different structures cannot collide either.
pub open spec fn root_alias_spec(structure_name: Seq<char>) -> Seq<char> {
    root_marker() + "_for_"@ + structure_name
}

/// The reserved marker, for callers that need to recognize it.
pub fn root_marker_text() -> (r: String)
    ensures
        r@ == root_marker(),
{
    String::from_str("__gfx_crate_root")
}

/// The root alias of one structure's fragment.
pub fn root_alias(structure_name: &String) -> (r: String)
    ensures
        r@ == root_alias_spec(structure_name@),
{
    String::from_str("__gfx_crate_root").concat("_for_").concat(structure_name.as_str())
}

/// The lookup operation of the rendering library each binding kind fetches
/// its handle through.
pub open spec fn lookup_fn_text(kind: BindingKindTag) -> Seq<char> {
    match kind {
        BindingKindTag::UniformScalar => "find_uniform_scalar"@,
        BindingKindTag::UniformVector => "find_uniform_vector"@,
        BindingKindTag::UniformMatrix => "find_uniform_matrix"@,
        BindingKindTag::Texture => "find_texture"@,
        BindingKindTag::RawBuffer => "find_buffer"@,
        BindingKindTag::VertexAttribute => "find_attribute"@,
    }
}

/// The conversion of the rendering library each binding kind writes its
/// value through.
pub open spec fn convert_fn_text(kind: BindingKindTag) -> Seq<char> {
    match kind {
        BindingKindTag::UniformScalar => "as_uniform_scalar"@,
        BindingKindTag::UniformVector => "as_uniform_vector"@,
        BindingKindTag::UniformMatrix => "as_uniform_matrix"@,
        BindingKindTag::Texture => "as_texture"@,
        BindingKindTag::RawBuffer => "as_buffer"@,
        BindingKindTag::VertexAttribute => "as_attribute"@,
    }
}

/// The internally generated path of a binding kind's lookup operation: it
/// starts from the reserved marker until the hygiene pass rewrites it.
pub open spec fn lookup_path_spec(kind: BindingKindTag) -> CodePathView {
    CodePathView { global: false, segments: seq![root_marker(), "gfx"@, lookup_fn_text(kind)] }
}

/// The internally generated path of a binding kind's conversion; written
/// behind `self` so both shapes the hygiene pass recognizes are exercised.
pub open spec fn convert_path_spec(kind: BindingKindTag) -> CodePathView {
    CodePathView {
        global: false,
        segments: seq!["self"@, root_marker(), "gfx"@, convert_fn_text(kind)],
    }
}

/// What one table entry synthesizes to.
pub open spec fn binding_spec(e: BindingEntryView) -> GeneratedBindingView {
    GeneratedBindingView {
        lookup: HandleLookupView {
            logical_name: e.name,
            kind: e.kind,
            lookup_path: lookup_path_spec(e.kind),
        },
        access: FieldAccessView {
            field_ident: e.field,
            kind: e.kind,
            convert_path: convert_path_spec(e.kind),
        },
    }
}

/// The re-export module of one structure's fragment.
pub open spec fn reexport_spec(structure_name: Seq<char>) -> ReexportModuleView {
    ReexportModuleView {
        module_name: root_alias_spec(structure_name),
        crate_name: "gfx"@,
        inner_alias: "gfx_"@,
    }
}

/// What synthesis emits for a structure and its binding table, before the
/// hygiene pass: a function of the inputs alone, so synthesis is
/// deterministic and reproducible.
pub open spec fn synthesize_spec(
    target: DeriveKind,
    structure_name: Seq<char>,
    table: Seq<BindingEntryView>,
) -> GeneratedCodeView {
    GeneratedCodeView {
        target,
        structure_name,
        root_module: reexport_spec(structure_name),
        bindings: Seq::new(table.len(), |i: int| binding_spec(table[i])),
    }
}

/// What the hygiene pass does to one path: a path that starts with the
/// reserved marker, directly or behind a leading `self`, has the marker
/// replaced by the root alias and loses any global anchoring; every other
/// path is left exactly as it stands.
pub open spec fn fold_path_spec(p: CodePathView, root: Seq<char>) -> CodePathView {
    if p.segments.len() >= 1 && p.segments[0] == root_marker() {
        CodePathView { global: false, segments: p.segments.update(0, root) }
    } else if p.segments.len() >= 2 && p.segments[0] == "self"@ && p.segments[1] == root_marker() {
        CodePathView { global: false, segments: p.segments.update(1, root) }
    } else {
        p
    }
}

/// One generated binding after the hygiene pass.
pub open spec fn fixup_binding_spec(b: GeneratedBindingView, root: Seq<char>) -> GeneratedBindingView {
    GeneratedBindingView {
        lookup: HandleLookupView {
            logical_name: b.lookup.logical_name,
            kind: b.lookup.kind,
            lookup_path: fold_path_spec(b.lookup.lookup_path, root),
        },
        access: FieldAccessView {
            field_ident: b.access.field_ident,
            kind: b.access.kind,
            convert_path: fold_path_spec(b.access.convert_path, root),
        },
    }
}

/// A whole fragment after the hygiene pass: every path folded, everything
/// else untouched.
pub open spec fn fixup_code_spec(c: GeneratedCodeView, root: Seq<char>) -> GeneratedCodeView {
    GeneratedCodeView {
        target: c.target,
        structure_name: c.structure_name,
        root_module: c.root_module,
        bindings: Seq::new(c.bindings.len(), |i: int| fixup_binding_spec(c.bindings[i], root)),
    }
}

/// Copies a path's segments with the segment at `idx` replaced by `root`.
fn rewrite_segment(segments: &Vec<String>, idx: usize, root: &String) -> (r: Vec<String>)
    requires
        idx < segments.len(),
    ensures
        r.deep_view() == segments.deep_view().update(idx as int, root@),
{
    let mut r: Vec<String> = Vec::new();
    let mut i: usize = 0;
    while i < segments.len()
        invariant
            0 <= i <= segments.len(),
            idx < segments.len(),
            r@.len() == i,
            forall|m: int| 0 <= m < i && m != idx ==> r@[m]@ == segments@[m]@,
            idx < i ==> r@[idx as int]@ == root@,
        decreases segments.len() - i,
    {
        if i == idx {
            r.push(root.clone());
        } else {
            r.push(segments[i].clone());
        }
        i += 1;
    }
    proof {
        assert(r.deep_view() =~= segments.deep_view().update(idx as int, root@));
    }
    r
}

/// Copies a path's segments unchanged.
fn copy_segments(segments: &Vec<String>) -> (r: Vec<String>)
    ensures
        r.deep_view() == segments.deep_view(),
{
    let mut r: Vec<String> = Vec::new();
    let mut i: usize = 0;
    while i < segments.len()
        invariant
            0 <= i <= segments.len(),
            r@.len() == i,
            forall|m: int| 0 <= m < i ==> r@[m]@ == segments@[m]@,
        decreases segments.len() - i,
    {
        r.push(segments[i].clone());
        i += 1;
    }
    proof {
        assert(r.deep_view() =~= segments.deep_view());
    }
    r
}

/// Applies the hygiene rewrite to one path: the reserved marker, standing
/// first or right behind a leading `self`, becomes `root`; any other path
/// comes back unchanged.
pub fn fold_path(p: &CodePath, root: &String) -> (r: CodePath)
    ensures
        r@ == fold_path_spec(p@, root@),
{
    let marker = root_marker_text();
    let self_seg = String::from_str("self");
    if p.segments.len() >= 1 && p.segments[0] == marker {
        CodePath { global: false, segments: rewrite_segment(&p.segments, 0, root) }
    } else if p.segments.len() >= 2 && p.segments[0] == self_seg && p.segments[1] == marker {
        CodePath { global: false, segments: rewrite_segment(&p.segments, 1, root) }
    } else {
        CodePath { global: p.global, segments: copy_segments(&p.segments) }
    }
}

/// Applies the hygiene pass to a whole fragment: every internally generated
/// path is folded onto `root`; names, kinds and the re-export module are
/// untouched.
pub fn fixup_paths(code: &GeneratedCode, root: &String) -> (r: GeneratedCode)
    ensures
        r@ == fixup_code_spec(code@, root@),
{
    let mut bindings: Vec<GeneratedBinding> = Vec::new();
    let mut i: usize = 0;
    while i < code.bindings.len()
        invariant
            0 <= i <= code.bindings.len(),
            bindings@.len() == i,
            forall|m: int|
                0 <= m < i ==> bindings@[m]@ == fixup_binding_spec(
                    code.bindings.deep_view()[m],
                    root@,
                ),
        decreases code.bindings.len() - i,
    {
        let b = &code.bindings[i];
        proof {
            assert(code.bindings.deep_view()[i as int] == code.bindings@[i as int]@);
        }
        bindings.push(
            GeneratedBinding {
                lookup: HandleLookup {
                    logical_name: b.lookup.logical_name.clone(),
                    kind: b.lookup.kind,
                    lookup_path: fold_path(&b.lookup.lookup_path, root),
                },
                access: FieldAccess {
                    field_ident: b.access.field_ident.clone(),
                    kind: b.access.kind,
                    convert_path: fold_path(&b.access.convert_path, root),
                },
            },
        );
        i += 1;
    }
    let r = GeneratedCode {
        target: code.target,
        structure_name: code.structure_name.clone(),
        root_module: ReexportModule {
            module_name: code.root_module.module_name.clone(),
            crate_name: code.root_module.crate_name.clone(),
            inner_alias: code.root_module.inner_alias.clone(),
        },
        bindings,
    };
    proof {
        assert(r@.bindings =~= fixup_code_spec(code@, root@).bindings);
    }
    r
}

/// Builds the path of a binding kind's bind-time lookup.
fn lookup_path(kind: BindingKindTag) -> (r: CodePath)
    ensures
        r@ == lookup_path_spec(kind),
{
    let mut segments: Vec<String> = Vec::new();
    segments.push(root_marker_text());
    segments.push(String::from_str("gfx"));
    segments.push(
        match kind {
            BindingKindTag::UniformScalar => String::from_str("find_uniform_scalar"),
            BindingKindTag::UniformVector => String::from_str("find_uniform_vector"),
            BindingKindTag::UniformMatrix => String::from_str("find_uniform_matrix"),
            BindingKindTag::Texture => String::from_str("find_texture"),
            BindingKindTag::RawBuffer => String::from_str("find_buffer"),
            BindingKindTag::VertexAttribute => String::from_str("find_attribute"),
        },
    );
    let r = CodePath { global: false, segments };
    proof {
        assert(r@.segments =~= lookup_path_spec(kind).segments);
    }
    r
}

/// Builds the path of a binding kind's value conversion.
fn convert_path(kind: BindingKindTag) -> (r: CodePath)
    ensures
        r@ == convert_path_spec(kind),
{
    let mut segments: Vec<String> = Vec::new();
    segments.push(String::from_str("self"));
    segments.push(root_marker_text());
    segments.push(String::from_str("gfx"));
    segments.push(
        match kind {
            BindingKindTag::UniformScalar => String::from_str("as_uniform_scalar"),
            BindingKindTag::UniformVector => String::from_str("as_uniform_vector"),
            BindingKindTag::UniformMatrix => String::from_str("as_uniform_matrix"),
            BindingKindTag::Texture => String::from_str("as_texture"),
            BindingKindTag::RawBuffer => String::from_str("as_buffer"),
            BindingKindTag::VertexAttribute => String::from_str("as_attribute"),
        },
    );
    let r = CodePath { global: false, segments };
    proof {
        assert(r@.segments =~= convert_path_spec(kind).segments);
    }
    r
}

/// Synthesizes the fragment for one structure from its valid binding table:
/// one generated binding per entry, in table order, each pairing the
/// bind-time lookup under the entry's resolved name with the value access of
/// the entry's field. The result is a function of the inputs alone.
pub fn synthesize(target: DeriveKind, structure_name: &String, table: &BindingTable) -> (r:
    GeneratedCode)
    requires
        distinct_names(table@),
    ensures
        r@ == synthesize_spec(target, structure_name@, table@),
{
    let mut bindings: Vec<GeneratedBinding> = Vec::new();
    let mut i: usize = 0;
    while i < table.entries.len()
        invariant
            0 <= i <= table.entries.len(),
            bindings@.len() == i,
            forall|m: int| 0 <= m < i ==> bindings@[m]@ == binding_spec(table.entries.deep_view()[m]),
        decreases table.entries.len() - i,
    {
        let e = &table.entries[i];
        proof {
            assert(table.entries.deep_view()[i as int] == table.entries@[i as int]@);
        }
        bindings.push(
            GeneratedBinding {
                lookup: HandleLookup {
                    logical_name: e.name.clone(),
                    kind: e.kind,
                    lookup_path: lookup_path(e.kind),
                },
                access: FieldAccess {
                    field_ident: e.field.clone(),
                    kind: e.kind,
                    convert_path: convert_path(e.kind),
                },
            },
        );
        i += 1;
    }
    let r = GeneratedCode {
        target,
        structure_name: structure_name.clone(),
        root_module: ReexportModule {
            module_name: root_alias(structure_name),
            crate_name: String::from_str("gfx"),
            inner_alias: String::from_str("gfx_"),
        },
        bindings,
    };
    proof {
        assert(r@.bindings =~= synthesize_spec(target, structure_name@, table@).bindings);
    }
    r
}

} // verus!
