//! Diagnostics: the conditions the derivation can report, their severity,
//! and the rendering the host surfaces to the user.
//!
//! A name conflict on one field is a warning and never blocks synthesis; an
//! unsupported declared type and a duplicate resolved binding name are errors
//! and suppress the structure's generated code.

use vstd::prelude::*;

use crate::decl::SourceSpan;

verus! {

/// How grave a diagnostic is: warnings never abort a derivation, any error
/// suppresses the structure's generated code.
#[derive(Clone, Copy, PartialEq, Eq, Structural, Debug)]
pub enum Severity {
    Warning,
    Error,
}

/// What a diagnostic reports, with the names involved.
#[derive(Debug, PartialEq, Eq)]
pub enum DiagnosticKind {
    /// More than one explicit `name` annotation on one field; the first,
    /// `kept`, wins and `ignored` is discarded.
    NameConflict { kept: String, ignored: String },
    /// A field's declared type maps to no binding kind; `type_text` is the
    /// offending type's textual form.
    UnsupportedType { type_text: String },
    /// Two fields of one structure resolve to the same logical name; the
    /// earlier field is `first_field`.
    DuplicateBindingName { name: String, first_field: String },
}

/// Mathematical model of a diagnostic's kind.
pub enum DiagnosticKindView {
    NameConflict { kept: Seq<char>, ignored: Seq<char> },
    UnsupportedType { type_text: Seq<char> },
    DuplicateBindingName { name: Seq<char>, first_field: Seq<char> },
}

impl View for DiagnosticKind {
    type V = DiagnosticKindView;

    open spec fn view(&self) -> DiagnosticKindView {
        match self {
            DiagnosticKind::NameConflict { kept, ignored } => (DiagnosticKindView::NameConflict {
                kept: kept@,
                ignored: ignored@,
            }),
            DiagnosticKind::UnsupportedType { type_text } => (DiagnosticKindView::UnsupportedType {
                type_text: type_text@,
            }),
            DiagnosticKind::DuplicateBindingName { name, first_field } => {
                DiagnosticKindView::DuplicateBindingName { name: name@, first_field: first_field@ }
            },
        }
    }
}

impl DeepView for DiagnosticKind {
    type V = DiagnosticKindView;

    open spec fn deep_view(&self) -> DiagnosticKindView {
        self.view()
    }
}

/// One diagnostic: what happened and where in the source it happened.
#[derive(Debug, PartialEq, Eq)]
pub struct Diagnostic {
    pub kind: DiagnosticKind,
    pub span: SourceSpan,
}

/// Mathematical model of a diagnostic.
pub struct DiagnosticView {
    pub kind: DiagnosticKindView,
    pub span: SourceSpan,
}

impl View for Diagnostic {
    type V = DiagnosticView;

    open spec fn view(&self) -> DiagnosticView {
        DiagnosticView { kind: self.kind@, span: self.span }
    }
}

impl DeepView for Diagnostic {
    type V = DiagnosticView;

    open spec fn deep_view(&self) -> DiagnosticView {
        self.view()
    }
}

/// The severity each kind of diagnostic carries: a name conflict is a
/// warning, everything else is an error.
pub open spec fn severity_of(k: DiagnosticKindView) -> Severity {
    match k {
        DiagnosticKindView::NameConflict { .. } => Severity::Warning,
        DiagnosticKindView::UnsupportedType { .. } => Severity::Error,
        DiagnosticKindView::DuplicateBindingName { .. } => Severity::Error,
    }
}

/// Whether one diagnostic is of error severity.
pub open spec fn is_error(d: DiagnosticView) -> bool {
    severity_of(d.kind) == Severity::Error
}

/// Whether any diagnostic of the sequence is of error severity.
pub open spec fn has_error(diags: Seq<DiagnosticView>) -> bool {
    exists|i: int| 0 <= i < diags.len() && is_error(diags[i])
}

/// The message each kind of diagnostic renders to.
pub open spec fn message_of(k: DiagnosticKindView) -> Seq<char> {
    match k {
        DiagnosticKindView::NameConflict { kept, ignored } => {
            "extra binding name "@ + ignored + " ignored in favour of "@ + kept
        },
        DiagnosticKindView::UnsupportedType { type_text } => {
            "type "@ + type_text + " is not supported for binding"@
        },
        DiagnosticKindView::DuplicateBindingName { name, first_field } => {
            "binding name "@ + name + " already used by field "@ + first_field
        },
    }
}

impl Diagnostic {
    /// The severity this diagnostic carries.
    pub fn severity(&self) -> (s: Severity)
        ensures
            s == severity_of(self@.kind),
    {
        match &self.kind {
            DiagnosticKind::NameConflict { .. } => Severity::Warning,
            DiagnosticKind::UnsupportedType { .. } => Severity::Error,
            DiagnosticKind::DuplicateBindingName { .. } => Severity::Error,
        }
    }

    /// The human-readable message the host surfaces for this diagnostic.
    pub fn message(&self) -> (m: String)
        ensures
            m@ == message_of(self@.kind),
    {
        match &self.kind {
            DiagnosticKind::NameConflict { kept, ignored } => {
                String::from_str("extra binding name ").concat(ignored.as_str()).concat(
                    " ignored in favour of ",
                ).concat(kept.as_str())
            },
            DiagnosticKind::UnsupportedType { type_text } => {
                String::from_str("type ").concat(type_text.as_str()).concat(
                    " is not supported for binding",
                )
            },
            DiagnosticKind::DuplicateBindingName { name, first_field } => {
                String::from_str("binding name ").concat(name.as_str()).concat(
                    " already used by field ",
                ).concat(first_field.as_str())
            },
        }
    }
}

/// Whether any diagnostic of `diags` is of error severity; decides whether a
/// structure's derivation keeps its generated code.
pub fn any_error(diags: &Vec<Diagnostic>) -> (b: bool)
    ensures
        b == has_error(diags.deep_view()),
{
    let mut i: usize = 0;
    while i < diags.len()
        invariant
            0 <= i <= diags.len(),
            forall|j: int| 0 <= j < i ==> !is_error(diags.deep_view()[j]),
        decreases diags.len() - i,
    {
        let is_err = match diags[i].severity() {
            Severity::Error => true,
            Severity::Warning => false,
        };
        if is_err {
            assert(is_error(diags.deep_view()[i as int]));
            return true;
        }
        i += 1;
    }
    false
}

/// Renders every diagnostic to its message, in order, for the host to
/// surface; severity and source location stay available on each diagnostic.
pub fn report(diags: &Vec<Diagnostic>) -> (r: Vec<String>)
    ensures
        r.deep_view().len() == diags.deep_view().len(),
        forall|i: int|
            0 <= i < diags.deep_view().len() ==> r.deep_view()[i] == message_of(
                diags.deep_view()[i].kind,
            ),
{
    let mut r: Vec<String> = Vec::new();
    let mut i: usize = 0;
    while i < diags.len()
        invariant
            0 <= i <= diags.len(),
            r@.len() == i,
            forall|j: int| 0 <= j < i ==> r@[j]@ == message_of(diags@[j]@.kind),
        decreases diags.len() - i,
    {
        let m = diags[i].message();
        r.push(m);
        i += 1;
    }
    proof {
        assert forall|j: int| 0 <= j < diags.deep_view().len() implies r.deep_view()[j]
            == message_of(diags.deep_view()[j].kind) by {
            assert(r.deep_view()[j] == r@[j]@);
            assert(diags.deep_view()[j] == diags@[j]@);
        }
    }
    r
}

} // verus!
