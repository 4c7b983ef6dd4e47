//! Binding table builder: aggregates each field's resolved name and binding
//! kind into an ordered table, accumulating every diagnostic in one pass.
//!
//! A field whose type does not classify is excluded from the entries but
//! recorded as an error; after all fields, every resolved name that repeats
//! an earlier one is recorded as an error. Any error invalidates the table as
//! a whole: the caller gets the full diagnostic set and no table.

use vstd::prelude::*;

use crate::classify::{classify, classify_spec, unsupported_diag, BindingKindTag};
use crate::decl::{DeclaredType, DeclaredTypeView, FieldDeclaration, FieldView, SourceSpan};
use crate::diag::{
    has_error, is_error, Diagnostic, DiagnosticKind, DiagnosticKindView, DiagnosticView,
};
use crate::resolve::{name_conflicts_spec, resolve_name, resolved_name_spec};

verus! {

/// One row of the binding table: a field that classified, its resolved
/// logical name, its binding kind, and its declared type, with the field's
/// source location for later diagnostics.
#[derive(Debug, PartialEq, Eq)]
pub struct BindingEntry {
    pub field: String,
    pub name: String,
    pub kind: BindingKindTag,
    pub ty: DeclaredType,
    pub span: SourceSpan,
}

/// Mathematical model of a binding table entry.
pub struct BindingEntryView {
    pub field: Seq<char>,
    pub name: Seq<char>,
    pub kind: BindingKindTag,
    pub ty: DeclaredTypeView,
    pub span: SourceSpan,
}

impl View for BindingEntry {
    type V = BindingEntryView;

    open spec fn view(&self) -> BindingEntryView {
        BindingEntryView {
            field: self.field@,
            name: self.name@,
            kind: self.kind,
            ty: self.ty@,
            span: self.span,
        }
    }
}

impl DeepView for BindingEntry {
    type V = BindingEntryView;

    open spec fn deep_view(&self) -> BindingEntryView {
        self.view()
    }
}

/// The ordered binding table of one structure; all resolved names are
/// pairwise distinct and the order equals field declaration order.
#[derive(Debug, PartialEq, Eq)]
pub struct BindingTable {
    pub entries: Vec<BindingEntry>,
}

impl View for BindingTable {
    type V = Seq<BindingEntryView>;

    open spec fn view(&self) -> Seq<BindingEntryView> {
        self.entries.deep_view()
    }
}

/// The logical name a field binds under: its resolved name, or the field's
/// own identifier when no annotation named it.
pub open spec fn logical_name_spec(f: FieldView) -> Seq<char> {
    match resolved_name_spec(f.annotations) {
        Some(n) => n,
        None => f.ident,
    }
}

/// The table entry a classified field contributes.
pub open spec fn entry_spec(f: FieldView, tag: BindingKindTag) -> BindingEntryView {
    BindingEntryView {
        field: f.ident,
        name: logical_name_spec(f),
        kind: tag,
        ty: f.ty,
        span: f.span,
    }
}

/// The table entries of the fields that classify, in field order.
pub open spec fn entries_spec(fields: Seq<FieldView>) -> Seq<BindingEntryView>
    decreases fields.len(),
{
    if fields.len() == 0 {
        Seq::empty()
    } else {
        entries_spec(fields.drop_last()) + (match classify_spec(fields.last().ty) {
            Some(tag) => seq![entry_spec(fields.last(), tag)],
            None => Seq::empty(),
        })
    }
}

/// The per-field diagnostics, in field order: each field's name-conflict
/// warnings, then its unsupported-type error if it does not classify.
pub open spec fn field_diags_spec(fields: Seq<FieldView>) -> Seq<DiagnosticView>
    decreases fields.len(),
{
    if fields.len() == 0 {
        Seq::empty()
    } else {
        field_diags_spec(fields.drop_last()) + name_conflicts_spec(fields.last().annotations) + (
        if classify_spec(fields.last().ty) is None {
            seq![unsupported_diag(fields.last().ty, fields.last().span)]
        } else {
            Seq::empty()
        })
    }
}

/// Whether some entry of the sequence carries this resolved name.
pub open spec fn contains_name(entries: Seq<BindingEntryView>, name: Seq<char>) -> bool {
    exists|i: int| 0 <= i < entries.len() && entries[i].name == name
}

/// The position of the first entry carrying this name.
pub open spec fn first_index_with(entries: Seq<BindingEntryView>, name: Seq<char>) -> int
    decreases entries.len(),
{
    if entries.len() == 0 {
        0
    } else if entries.first().name == name {
        0
    } else {
        1 + first_index_with(entries.drop_first(), name)
    }
}

/// The error a repeated resolved name earns: it quotes the name and the
/// earlier field that already uses it, at the later field's location.
pub open spec fn duplicate_diag(prior: Seq<BindingEntryView>, e: BindingEntryView) -> DiagnosticView {
    DiagnosticView {
        kind: DiagnosticKindView::DuplicateBindingName {
            name: e.name,
            first_field: prior[first_index_with(prior, e.name)].field,
        },
        span: e.span,
    }
}

/// The duplicate-name errors of the table: one per entry whose resolved name
/// some earlier entry already uses, in table order.
pub open spec fn duplicate_diags_spec(entries: Seq<BindingEntryView>) -> Seq<DiagnosticView>
    decreases entries.len(),
{
    if entries.len() == 0 {
        Seq::empty()
    } else {
        duplicate_diags_spec(entries.drop_last()) + (if contains_name(
            entries.drop_last(),
            entries.last().name,
        ) {
            seq![duplicate_diag(entries.drop_last(), entries.last())]
        } else {
            Seq::empty()
        })
    }
}

/// Everything building the table reports: the per-field diagnostics, then
/// the duplicate-name errors.
pub open spec fn build_diags_spec(fields: Seq<FieldView>) -> Seq<DiagnosticView> {
    field_diags_spec(fields) + duplicate_diags_spec(entries_spec(fields))
}

/// The table invariant: all resolved names are pairwise distinct.
pub open spec fn distinct_names(entries: Seq<BindingEntryView>) -> bool {
    forall|i: int, j: int|
        #![trigger entries[i], entries[j]]
        0 <= i < j < entries.len() ==> entries[i].name != entries[j].name
}

/// The first entry carrying a name stands where the scan that found the name
/// first succeeded.
proof fn lemma_first_index_with(s: Seq<BindingEntryView>, name: Seq<char>, k: int)
    requires
        0 <= k < s.len(),
        s[k].name == name,
        forall|m: int| 0 <= m < k ==> s[m].name != name,
    ensures
        first_index_with(s, name) == k,
    decreases k,
{
    if k == 0 {
    } else {
        assert(s[0].name != name);
        assert forall|m: int| 0 <= m < k - 1 implies s.drop_first()[m].name != name by {
            assert(s.drop_first()[m] == s[m + 1]);
        }
        assert(s.drop_first()[k - 1] == s[k]);
        lemma_first_index_with(s.drop_first(), name, k - 1);
    }
}

/// Every duplicate-name diagnostic is of error severity.
proof fn lemma_dup_diags_all_errors(entries: Seq<BindingEntryView>)
    ensures
        forall|i: int|
            0 <= i < duplicate_diags_spec(entries).len() ==> is_error(
                #[trigger] duplicate_diags_spec(entries)[i],
            ),
    decreases entries.len(),
{
    if entries.len() == 0 {
    } else {
        lemma_dup_diags_all_errors(entries.drop_last());
        let pre = duplicate_diags_spec(entries.drop_last());
        let whole = duplicate_diags_spec(entries);
        assert forall|i: int| 0 <= i < whole.len() implies is_error(whole[i]) by {
            if i < pre.len() {
                assert(whole[i] == pre[i]);
            } else {
                assert(whole[i] == duplicate_diag(entries.drop_last(), entries.last()));
            }
        }
    }
}

/// A table that earned no duplicate-name diagnostic has pairwise distinct
/// resolved names.
proof fn lemma_no_dup_diags_distinct(entries: Seq<BindingEntryView>)
    requires
        duplicate_diags_spec(entries).len() == 0,
    ensures
        distinct_names(entries),
    decreases entries.len(),
{
    if entries.len() == 0 {
    } else {
        lemma_no_dup_diags_distinct(entries.drop_last());
        assert(!contains_name(entries.drop_last(), entries.last().name));
        assert forall|i: int, j: int|
            #![trigger entries[i], entries[j]]
            0 <= i < j < entries.len() implies entries[i].name != entries[j].name by {
            if j < entries.len() - 1 {
                assert(entries.drop_last()[i] == entries[i]);
                assert(entries.drop_last()[j] == entries[j]);
            } else {
                assert(entries.drop_last()[i] == entries[i]);
                if entries[i].name == entries[j].name {
                    assert(contains_name(entries.drop_last(), entries.last().name));
                }
            }
        }
    }
}

/// Builds the binding table of one structure's fields. All diagnostics of
/// the pass come back in order: each field's name-conflict warnings, its
/// unsupported-type error if its type does not classify, then one
/// duplicate-name error per resolved name that repeats an earlier one. The
/// table comes back exactly when no diagnostic is an error, and then holds
/// one entry per field, in field order, with pairwise distinct names.
pub fn build_table(fields: &Vec<FieldDeclaration>) -> (r: (Option<BindingTable>, Vec<Diagnostic>))
    ensures
        r.1.deep_view() == build_diags_spec(fields.deep_view()),
        r.0 is Some <==> !has_error(build_diags_spec(fields.deep_view())),
        r.0 matches Some(t) ==> t@ == entries_spec(fields.deep_view()),
        r.0 matches Some(t) ==> distinct_names(t@),
{
    let ghost fv = fields.deep_view();
    let mut diags: Vec<Diagnostic> = Vec::new();
    let mut entries: Vec<BindingEntry> = Vec::new();
    let mut i: usize = 0;
    while i < fields.len()
        invariant
            0 <= i <= fields.len(),
            fv == fields.deep_view(),
            fv.len() == fields.len(),
            entries.deep_view() == entries_spec(fv.take(i as int)),
            diags.deep_view() == field_diags_spec(fv.take(i as int)),
        decreases fields.len() - i,
    {
        let f = &fields[i];
        proof {
            assert(fv.take(i + 1).drop_last() =~= fv.take(i as int));
            assert(fv.take(i + 1).last() == fv[i as int]);
            assert(fv[i as int] == fields@[i as int]@);
            assert(f.annotations.deep_view() == fv[i as int].annotations);
        }
        let ghost diags0 = diags.deep_view();
        let (resolved, mut warns) = resolve_name(&f.annotations);
        let name = match resolved {
            Some(n) => n,
            None => f.ident.clone(),
        };
        assert(name@ == logical_name_spec(fv[i as int]));
        diags.append(&mut warns);
        proof {
            assert(diags.deep_view() =~= diags0 + name_conflicts_spec(fv[i as int].annotations));
        }
        match classify(&f.ty, f.span) {
            Ok(tag) => {
                let e = BindingEntry {
                    field: f.ident.clone(),
                    name,
                    kind: tag,
                    ty: f.ty.clone(),
                    span: f.span,
                };
                proof {
                    assert(e@ == entry_spec(fv[i as int], tag));
                }
                entries.push(e);
                proof {
                    assert(entries.deep_view() =~= entries_spec(fv.take(i + 1)));
                    assert(diags.deep_view() =~= field_diags_spec(fv.take(i + 1)));
                }
            },
            Err(d) => {
                proof {
                    assert(d@ == unsupported_diag(fv[i as int].ty, fv[i as int].span));
                }
                diags.push(d);
                proof {
                    assert(entries.deep_view() =~= entries_spec(fv.take(i + 1)));
                    assert(diags.deep_view() =~= field_diags_spec(fv.take(i + 1)));
                }
            },
        }
        i += 1;
    }
    proof {
        assert(fv.take(fv.len() as int) =~= fv);
    }
    let ghost ev = entries.deep_view();
    let mut dups: Vec<Diagnostic> = Vec::new();
    let mut j: usize = 0;
    while j < entries.len()
        invariant
            0 <= j <= entries.len(),
            ev == entries.deep_view(),
            ev.len() == entries.len(),
            dups.deep_view() == duplicate_diags_spec(ev.take(j as int)),
        decreases entries.len() - j,
    {
        proof {
            assert(ev.take(j + 1).drop_last() =~= ev.take(j as int));
            assert(ev.take(j + 1).last() == ev[j as int]);
            assert(ev[j as int] == entries@[j as int]@);
        }
        let ghost dups0 = dups.deep_view();
        let mut first: Option<usize> = None;
        let mut k: usize = 0;
        while k < j
            invariant
                0 <= k <= j,
                j < entries.len(),
                ev == entries.deep_view(),
                ev.len() == entries.len(),
                first is None ==> forall|m: int|
                    0 <= m < k ==> (#[trigger] ev[m]).name != ev[j as int].name,
                first matches Some(x) ==> 0 <= x < k && ev[x as int].name == ev[j as int].name
                    && forall|m: int| 0 <= m < x ==> (#[trigger] ev[m]).name != ev[j as int].name,
            decreases j - k,
        {
            if first.is_none() {
                if entries[k].name == entries[j].name {
                    proof {
                        assert(ev[k as int] == entries@[k as int]@);
                    }
                    first = Some(k);
                }
            }
            k += 1;
        }
        match first {
            Some(x) => {
                proof {
                    assert forall|m: int| 0 <= m < x implies (#[trigger] ev.take(j as int)[m]).name
                        != ev[j as int].name by {
                        assert(ev.take(j as int)[m] == ev[m]);
                    }
                    assert(ev.take(j as int)[x as int] == ev[x as int]);
                    lemma_first_index_with(ev.take(j as int), ev[j as int].name, x as int);
                    assert(contains_name(ev.take(j as int), ev[j as int].name));
                }
                let d = Diagnostic {
                    kind: DiagnosticKind::DuplicateBindingName {
                        name: entries[j].name.clone(),
                        first_field: entries[x].field.clone(),
                    },
                    span: entries[j].span,
                };
                proof {
                    assert(d@ == duplicate_diag(ev.take(j as int), ev[j as int]));
                }
                dups.push(d);
                proof {
                    assert(dups.deep_view() =~= duplicate_diags_spec(ev.take(j + 1)));
                }
            },
            None => {
                proof {
                    assert forall|m: int| 0 <= m < j implies (#[trigger] ev.take(j as int)[m]).name
                        != ev[j as int].name by {
                        assert(ev.take(j as int)[m] == ev[m]);
                    }
                    assert(!contains_name(ev.take(j as int), ev[j as int].name));
                    assert(dups.deep_view() =~= duplicate_diags_spec(ev.take(j + 1)));
                }
            },
        }
        j += 1;
    }
    proof {
        assert(ev.take(ev.len() as int) =~= ev);
    }
    diags.append(&mut dups);
    proof {
        assert(diags.deep_view() =~= build_diags_spec(fv));
    }
    let err = crate::diag::any_error(&diags);
    if err {
        (None, diags)
    } else {
        proof {
            lemma_dup_diags_all_errors(ev);
            if duplicate_diags_spec(ev).len() > 0 {
                let fd = field_diags_spec(fv);
                assert(build_diags_spec(fv)[fd.len() as int] == duplicate_diags_spec(ev)[0]);
                assert(is_error(build_diags_spec(fv)[fd.len() as int]));
                assert(has_error(build_diags_spec(fv)));
            }
            lemma_no_dup_diags_distinct(ev);
        }
        (Some(BindingTable { entries }), diags)
    }
}

} // verus!
