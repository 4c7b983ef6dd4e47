//! The general guarantees of the derivation engine, stated and proved once
//! over the models its contracts use.

use vstd::prelude::*;

use crate::classify::classify_spec;
use crate::decl::{AnnotationView, FieldView, StructureView};
use crate::diag::DiagnosticView;
use crate::resolve::{annotation_text, name_conflicts_spec, qualifies, resolved_name_spec};
use crate::synth::{
    binding_spec, fold_path_spec, root_marker, synthesize_spec, CodePathView, DeriveKind,
};
use crate::table::{
    build_diags_spec, distinct_names, entries_spec, entry_spec, logical_name_spec,
    BindingEntryView,
};

verus! {

/// Annotations among which none qualifies resolve to no name and emit no
/// conflict warning.
pub proof fn lemma_no_qualifying(annots: Seq<AnnotationView>)
    requires
        forall|i: int| 0 <= i < annots.len() ==> !qualifies(#[trigger] annots[i]),
    ensures
        resolved_name_spec(annots) is None,
        name_conflicts_spec(annots) == Seq::<DiagnosticView>::empty(),
    decreases annots.len(),
{
    if annots.len() == 0 {
    } else {
        assert forall|i: int| 0 <= i < annots.drop_last().len() implies !qualifies(
            #[trigger] annots.drop_last()[i],
        ) by {
            assert(annots.drop_last()[i] == annots[i]);
        }
        lemma_no_qualifying(annots.drop_last());
        assert(name_conflicts_spec(annots) =~= Seq::<DiagnosticView>::empty());
    }
}

/// With exactly one qualifying annotation, name resolution returns that
/// annotation's text and emits no diagnostic at all.
pub proof fn lemma_single_name_annotation(annots: Seq<AnnotationView>, k: int)
    requires
        0 <= k < annots.len(),
        qualifies(annots[k]),
        forall|i: int| 0 <= i < annots.len() && i != k ==> !qualifies(#[trigger] annots[i]),
    ensures
        resolved_name_spec(annots) == Some(annotation_text(annots[k])),
        name_conflicts_spec(annots) == Seq::<DiagnosticView>::empty(),
    decreases annots.len(),
{
    if k == annots.len() - 1 {
        assert forall|i: int| 0 <= i < annots.drop_last().len() implies !qualifies(
            #[trigger] annots.drop_last()[i],
        ) by {
            assert(annots.drop_last()[i] == annots[i]);
        }
        lemma_no_qualifying(annots.drop_last());
        assert(name_conflicts_spec(annots) =~= Seq::<DiagnosticView>::empty());
    } else {
        assert(annots.drop_last()[k] == annots[k]);
        assert forall|i: int|
            0 <= i < annots.drop_last().len() && i != k implies !qualifies(
            #[trigger] annots.drop_last()[i],
        ) by {
            assert(annots.drop_last()[i] == annots[i]);
        }
        lemma_single_name_annotation(annots.drop_last(), k);
        assert(!qualifies(annots.last()));
        assert(name_conflicts_spec(annots) =~= Seq::<DiagnosticView>::empty());
    }
}

/// With no metadata annotations anywhere, every field resolves to no name
/// and binds under its own identifier, so every table entry's name equals
/// its field identifier.
pub proof fn lemma_no_annotations_defaults(fields: Seq<FieldView>)
    requires
        forall|i: int| 0 <= i < fields.len() ==> (#[trigger] fields[i]).annotations.len() == 0,
    ensures
        forall|i: int|
            0 <= i < fields.len() ==> resolved_name_spec(
                (#[trigger] fields[i]).annotations,
            ) is None,
        forall|i: int|
            0 <= i < fields.len() ==> logical_name_spec(#[trigger] fields[i]) == fields[i].ident,
        forall|j: int|
            0 <= j < entries_spec(fields).len() ==> (#[trigger] entries_spec(fields)[j]).name
                == entries_spec(fields)[j].field,
{
    assert forall|i: int| 0 <= i < fields.len() implies resolved_name_spec(
        (#[trigger] fields[i]).annotations,
    ) is None by {
        lemma_no_qualifying(fields[i].annotations);
    }
    lemma_default_entries(fields);
}

/// Each table entry of fields that bind under their own identifier carries
/// that identifier as its name.
proof fn lemma_default_entries(fields: Seq<FieldView>)
    requires
        forall|i: int|
            0 <= i < fields.len() ==> logical_name_spec(#[trigger] fields[i]) == fields[i].ident,
    ensures
        forall|j: int|
            0 <= j < entries_spec(fields).len() ==> (#[trigger] entries_spec(fields)[j]).name
                == entries_spec(fields)[j].field,
    decreases fields.len(),
{
    if fields.len() == 0 {
    } else {
        assert forall|i: int| 0 <= i < fields.drop_last().len() implies logical_name_spec(
            #[trigger] fields.drop_last()[i],
        ) == fields.drop_last()[i].ident by {
            assert(fields.drop_last()[i] == fields[i]);
        }
        lemma_default_entries(fields.drop_last());
        let pre = entries_spec(fields.drop_last());
        let whole = entries_spec(fields);
        assert forall|j: int| 0 <= j < whole.len() implies (#[trigger] whole[j]).name
            == whole[j].field by {
            if j < pre.len() {
                assert(whole[j] == pre[j]);
            } else {
                assert(whole[j] == entry_spec(
                    fields.last(),
                    classify_spec(fields.last().ty).unwrap(),
                ));
            }
        }
    }
}

/// When every field's type classifies, the table holds one entry per field,
/// in field declaration order.
pub proof fn lemma_table_in_field_order(fields: Seq<FieldView>)
    requires
        forall|i: int| 0 <= i < fields.len() ==> classify_spec((#[trigger] fields[i]).ty) is Some,
    ensures
        entries_spec(fields).len() == fields.len(),
        forall|i: int|
            0 <= i < fields.len() ==> #[trigger] entries_spec(fields)[i] == entry_spec(
                fields[i],
                classify_spec(fields[i].ty).unwrap(),
            ),
    decreases fields.len(),
{
    if fields.len() == 0 {
    } else {
        assert forall|i: int| 0 <= i < fields.drop_last().len() implies classify_spec(
            (#[trigger] fields.drop_last()[i]).ty,
        ) is Some by {
            assert(fields.drop_last()[i] == fields[i]);
        }
        lemma_table_in_field_order(fields.drop_last());
        let pre = entries_spec(fields.drop_last());
        let whole = entries_spec(fields);
        assert forall|i: int| 0 <= i < fields.len() implies #[trigger] whole[i] == entry_spec(
            fields[i],
            classify_spec(fields[i].ty).unwrap(),
        ) by {
            if i < pre.len() {
                assert(whole[i] == pre[i]);
                assert(fields.drop_last()[i] == fields[i]);
            } else {
                assert(whole[i] == entry_spec(
                    fields.last(),
                    classify_spec(fields.last().ty).unwrap(),
                ));
            }
        }
    }
}

/// Derivation is deterministic: structurally identical declarations yield
/// the same diagnostics and the same generated fragment, with no room for
/// ambient state.
pub proof fn lemma_derivation_deterministic(target: DeriveKind, a: StructureView, b: StructureView)
    requires
        a == b,
    ensures
        build_diags_spec(a.fields) == build_diags_spec(b.fields),
        crate::pipeline::generated_spec(target, a) == crate::pipeline::generated_spec(target, b),
{
}

/// Reordering two entries of a valid table keeps the table valid and
/// reorders the generated bind-time lookups the same way, leaving each
/// binding itself unchanged.
pub proof fn lemma_reorder_swaps_bindings(
    target: DeriveKind,
    name: Seq<char>,
    table: Seq<BindingEntryView>,
    i: int,
    j: int,
)
    requires
        distinct_names(table),
        0 <= i < j < table.len(),
    ensures
        distinct_names(table.update(i, table[j]).update(j, table[i])),
        synthesize_spec(target, name, table.update(i, table[j]).update(j, table[i])).bindings
            == synthesize_spec(target, name, table).bindings.update(i, binding_spec(table[j])).update(
            j,
            binding_spec(table[i]),
        ),
{
    let sw = table.update(i, table[j]).update(j, table[i]);
    assert forall|p: int, q: int|
        0 <= p < table.len() && 0 <= q < table.len() && p != q implies (#[trigger] table[p]).name
        != (#[trigger] table[q]).name by {
        if p < q {
            assert(table[p].name != table[q].name);
        } else {
            assert(table[q].name != table[p].name);
        }
    }
    assert forall|a: int, b: int|
        #![trigger sw[a], sw[b]]
        0 <= a < b < sw.len() implies sw[a].name != sw[b].name by {
        let pa = if a == i {
            j
        } else if a == j {
            i
        } else {
            a
        };
        let pb = if b == i {
            j
        } else if b == j {
            i
        } else {
            b
        };
        assert(sw[a] == table[pa]);
        assert(sw[b] == table[pb]);
        assert(pa != pb);
    }
    assert(synthesize_spec(target, name, sw).bindings =~= synthesize_spec(
        target,
        name,
        table,
    ).bindings.update(i, binding_spec(table[j])).update(j, binding_spec(table[i])));
}

/// The hygiene pass never alters a user-visible path: a path that does not
/// start with the reserved marker, directly or behind a leading `self`,
/// comes back exactly as it went in.
pub proof fn lemma_fold_path_preserves_user_paths(p: CodePathView, root: Seq<char>)
    requires
        p.segments.len() >= 1 ==> p.segments[0] != root_marker(),
        p.segments.len() >= 2 ==> !(p.segments[0] == "self"@ && p.segments[1] == root_marker()),
    ensures
        fold_path_spec(p, root) == p,
{
}

/// Every fragment a derivation emits is hygienic: each generated binding's
/// lookup and conversion paths name the fragment's own re-export module, so
/// they resolve wherever the fragment is spliced.
pub proof fn lemma_generated_paths_resolve(target: DeriveKind, s: StructureView)
    ensures
        forall|i: int|
            0 <= i < crate::pipeline::generated_spec(target, s).bindings.len() ==> (#[trigger] crate::pipeline::generated_spec(
                target,
                s,
            ).bindings[i]).lookup.lookup_path.segments[0] == crate::pipeline::generated_spec(
                target,
                s,
            ).root_module.module_name && crate::pipeline::generated_spec(
                target,
                s,
            ).bindings[i].access.convert_path.segments[1] == crate::pipeline::generated_spec(
                target,
                s,
            ).root_module.module_name,
{
    reveal_strlit("self");
    reveal_strlit("__gfx_crate_root");
    assert("self"@.len() != root_marker().len());
    let code = crate::pipeline::generated_spec(target, s);
    assert forall|i: int| 0 <= i < code.bindings.len() implies (#[trigger] code.bindings[i]).lookup.lookup_path.segments[0]
        == code.root_module.module_name && code.bindings[i].access.convert_path.segments[1]
        == code.root_module.module_name by {
        let entry = entries_spec(s.fields)[i];
        assert(code.bindings[i] == crate::synth::fixup_binding_spec(
            binding_spec(entry),
            crate::synth::root_alias_spec(s.name),
        ));
    }
}

} // verus!
