//! Name resolver: extracts the logical binding name of one field from its
//! metadata annotations.
//!
//! A left fold over the annotations in declaration order. Only annotations
//! with key `name` and a string-literal value participate; the first one sets
//! the name, every later one is a conflict that keeps the first name and
//! emits a warning quoting both. Annotations with another key or a
//! non-string value are ignored here.

use vstd::prelude::*;

use crate::decl::{AnnotationValue, AnnotationView, AnnotationValueView, MetadataAnnotation};
use crate::diag::{Diagnostic, DiagnosticKind, DiagnosticKindView, DiagnosticView};

verus! {

/// Whether an annotation participates in name resolution: key `name` with a
/// string-literal value.
pub open spec fn qualifies(a: AnnotationView) -> bool {
    a.key == "name"@ && a.value is Text
}

/// The string a qualifying annotation carries.
pub open spec fn annotation_text(a: AnnotationView) -> Seq<char> {
    a.value->Text_0
}

/// The logical name the annotations resolve to: the text of the first
/// qualifying annotation, or `None` when there is none.
pub open spec fn resolved_name_spec(annots: Seq<AnnotationView>) -> Option<Seq<char>>
    decreases annots.len(),
{
    if annots.len() == 0 {
        None
    } else {
        match resolved_name_spec(annots.drop_last()) {
            Some(n) => Some(n),
            None => if qualifies(annots.last()) {
                Some(annotation_text(annots.last()))
            } else {
                None
            },
        }
    }
}

/// The warning one conflicting annotation earns: it quotes the name kept and
/// the name ignored, at the conflicting annotation's location.
pub open spec fn conflict_diag(kept: Seq<char>, a: AnnotationView) -> DiagnosticView {
    DiagnosticView {
        kind: DiagnosticKindView::NameConflict { kept, ignored: annotation_text(a) },
        span: a.span,
    }
}

/// The warnings name resolution emits: one per qualifying annotation after
/// the first, in declaration order.
pub open spec fn name_conflicts_spec(annots: Seq<AnnotationView>) -> Seq<DiagnosticView>
    decreases annots.len(),
{
    if annots.len() == 0 {
        Seq::empty()
    } else {
        name_conflicts_spec(annots.drop_last()) + (match resolved_name_spec(annots.drop_last()) {
            Some(kept) => if qualifies(annots.last()) {
                seq![conflict_diag(kept, annots.last())]
            } else {
                Seq::empty()
            },
            None => Seq::empty(),
        })
    }
}

/// Whether an annotation participates in name resolution. The host marks a
/// participating annotation consumed, so it does not also warn that the
/// annotation went unused.
pub fn is_name_annotation(a: &MetadataAnnotation) -> (b: bool)
    ensures
        b == qualifies(a@),
{
    let probe = String::from_str("name");
    if a.key == probe {
        match &a.value {
            AnnotationValue::Text(_) => true,
            AnnotationValue::Other => false,
        }
    } else {
        false
    }
}

/// Resolves a field's logical binding name from its annotations: the first
/// `name = "..."` annotation wins, each later one yields a warning that
/// quotes both names, and `None` means no qualifying annotation was found
/// (the caller then defaults to the field's own identifier).
pub fn resolve_name(annotations: &Vec<MetadataAnnotation>) -> (r: (Option<String>, Vec<Diagnostic>))
    ensures
        r.0.deep_view() == resolved_name_spec(annotations.deep_view()),
        r.1.deep_view() == name_conflicts_spec(annotations.deep_view()),
{
    let ghost av = annotations.deep_view();
    let mut name: Option<String> = None;
    let mut diags: Vec<Diagnostic> = Vec::new();
    let mut i: usize = 0;
    while i < annotations.len()
        invariant
            0 <= i <= annotations.len(),
            av == annotations.deep_view(),
            av.len() == annotations.len(),
            name.deep_view() == resolved_name_spec(av.take(i as int)),
            diags.deep_view() == name_conflicts_spec(av.take(i as int)),
        decreases annotations.len() - i,
    {
        let a = &annotations[i];
        proof {
            assert(av.take(i + 1).drop_last() =~= av.take(i as int));
            assert(av.take(i + 1).last() == av[i as int]);
            assert(av[i as int] == annotations@[i as int]@);
        }
        let ghost diags0 = diags.deep_view();
        let participates = is_name_annotation(a);
        match &a.value {
            AnnotationValue::Text(text) => {
                if participates {
                    assert(qualifies(av[i as int]));
                    assert(annotation_text(av[i as int]) == text@);
                    match &name {
                        Some(kept) => {
                            let d = Diagnostic {
                                kind: DiagnosticKind::NameConflict {
                                    kept: kept.clone(),
                                    ignored: text.clone(),
                                },
                                span: a.span,
                            };
                            proof {
                                assert(d@ == conflict_diag(kept@, av[i as int]));
                            }
                            diags.push(d);
                            proof {
                                assert(diags.deep_view() =~= diags0.push(
                                    conflict_diag(kept@, av[i as int]),
                                ));
                                assert(diags0.push(conflict_diag(kept@, av[i as int])) =~= diags0
                                    + seq![conflict_diag(kept@, av[i as int])]);
                            }
                        },
                        None => {
                            name = Some(text.clone());
                        },
                    }
                } else {
                    assert(!qualifies(av[i as int]));
                }
            },
            AnnotationValue::Other => {
                assert(!qualifies(av[i as int]));
            },
        }
        proof {
            if !qualifies(av[i as int]) || resolved_name_spec(av.take(i as int)) is None {
                assert(diags.deep_view() =~= name_conflicts_spec(av.take(i + 1)));
            }
        }
        i += 1;
    }
    proof {
        assert(av.take(av.len() as int) =~= av);
    }
    (name, diags)
}

} // verus!
