//! Field classifier: maps a field's declared type shape to exactly one
//! binding kind, or reports that the type is not supported for binding.
//!
//! Classification is purely structural: numeric scalars and 2- to 4-wide
//! vector and matrix shapes become uniform kinds, the recognized handle
//! wrappers become texture and raw-buffer kinds, and 1- to 4-wide
//! attribute-value arrays become the vertex-attribute kind. Every other shape
//! fails with a diagnostic that carries the offending type's textual form.

use vstd::prelude::*;

use crate::decl::{DeclaredType, DeclaredTypeView, ScalarKind, SourceSpan};
use crate::diag::{Diagnostic, DiagnosticKind, DiagnosticKindView, DiagnosticView};

verus! {

/// The supported binding mechanisms a classified field can use.
#[derive(Clone, Copy, PartialEq, Eq, Structural, Debug)]
pub enum BindingKindTag {
    UniformScalar,
    UniformVector,
    UniformMatrix,
    Texture,
    RawBuffer,
    VertexAttribute,
}

/// The classification rules: which binding kind a declared type shape maps
/// to, and `None` where no rule matches.
pub open spec fn classify_spec(t: DeclaredTypeView) -> Option<BindingKindTag> {
    match t {
        DeclaredTypeView::Scalar(_) => Some(BindingKindTag::UniformScalar),
        DeclaredTypeView::Vector(_, n) => if 2 <= n <= 4 {
            Some(BindingKindTag::UniformVector)
        } else {
            None
        },
        DeclaredTypeView::Matrix(_, r, c) => if 2 <= r <= 4 && 2 <= c <= 4 {
            Some(BindingKindTag::UniformMatrix)
        } else {
            None
        },
        DeclaredTypeView::TextureHandle => Some(BindingKindTag::Texture),
        DeclaredTypeView::BufferHandle => Some(BindingKindTag::RawBuffer),
        DeclaredTypeView::AttributeValue(_, n) => if 1 <= n <= 4 {
            Some(BindingKindTag::VertexAttribute)
        } else {
            None
        },
        DeclaredTypeView::Named(_) => None,
    }
}

/// The textual form of a scalar kind.
pub open spec fn scalar_text(k: ScalarKind) -> Seq<char> {
    match k {
        ScalarKind::Signed => "i32"@,
        ScalarKind::Unsigned => "u32"@,
        ScalarKind::Float => "f32"@,
    }
}

/// The character a small dimension renders to; dimensions past one digit
/// cannot classify anyway and render as `?`.
pub open spec fn dim_char(n: u64) -> char {
    if n == 0 {
        '0'
    } else if n == 1 {
        '1'
    } else if n == 2 {
        '2'
    } else if n == 3 {
        '3'
    } else if n == 4 {
        '4'
    } else if n == 5 {
        '5'
    } else if n == 6 {
        '6'
    } else if n == 7 {
        '7'
    } else if n == 8 {
        '8'
    } else if n == 9 {
        '9'
    } else {
        '?'
    }
}

/// The textual form of a declared type, as diagnostics quote it.
pub open spec fn type_text_spec(t: DeclaredTypeView) -> Seq<char> {
    match t {
        DeclaredTypeView::Scalar(k) => scalar_text(k),
        DeclaredTypeView::Vector(k, n) => scalar_text(k) + "x"@ + seq![dim_char(n)],
        DeclaredTypeView::Matrix(k, r, c) => scalar_text(k) + "x"@ + seq![dim_char(r)] + "x"@
            + seq![dim_char(c)],
        DeclaredTypeView::TextureHandle => "TextureHandle"@,
        DeclaredTypeView::BufferHandle => "BufferHandle"@,
        DeclaredTypeView::AttributeValue(k, n) => "["@ + scalar_text(k) + "; "@ + seq![
            dim_char(n),
        ] + "]"@,
        DeclaredTypeView::Named(s) => s,
    }
}

/// The diagnostic an unclassifiable type earns, at the field's location.
pub open spec fn unsupported_diag(t: DeclaredTypeView, span: SourceSpan) -> DiagnosticView {
    DiagnosticView {
        kind: DiagnosticKindView::UnsupportedType { type_text: type_text_spec(t) },
        span,
    }
}

/// The textual form of a scalar kind.
fn scalar_str(k: ScalarKind) -> (r: &'static str)
    ensures
        r@ == scalar_text(k),
{
    match k {
        ScalarKind::Signed => "i32",
        ScalarKind::Unsigned => "u32",
        ScalarKind::Float => "f32",
    }
}

/// The one-character textual form of a small dimension.
fn dim_str(n: u64) -> (r: &'static str)
    ensures
        r@ == seq![dim_char(n)],
{
    if n == 0 {
        proof {
            reveal_strlit("0");
        }
        "0"
    } else if n == 1 {
        proof {
            reveal_strlit("1");
        }
        "1"
    } else if n == 2 {
        proof {
            reveal_strlit("2");
        }
        "2"
    } else if n == 3 {
        proof {
            reveal_strlit("3");
        }
        "3"
    } else if n == 4 {
        proof {
            reveal_strlit("4");
        }
        "4"
    } else if n == 5 {
        proof {
            reveal_strlit("5");
        }
        "5"
    } else if n == 6 {
        proof {
            reveal_strlit("6");
        }
        "6"
    } else if n == 7 {
        proof {
            reveal_strlit("7");
        }
        "7"
    } else if n == 8 {
        proof {
            reveal_strlit("8");
        }
        "8"
    } else if n == 9 {
        proof {
            reveal_strlit("9");
        }
        "9"
    } else {
        proof {
            reveal_strlit("?");
        }
        "?"
    }
}

/// Renders a declared type to the textual form diagnostics quote.
pub fn type_text(ty: &DeclaredType) -> (r: String)
    ensures
        r@ == type_text_spec(ty@),
{
    match ty {
        DeclaredType::Scalar(k) => String::from_str(scalar_str(*k)),
        DeclaredType::Vector(k, n) => {
            String::from_str(scalar_str(*k)).concat("x").concat(dim_str(*n))
        },
        DeclaredType::Matrix(k, r, c) => {
            String::from_str(scalar_str(*k)).concat("x").concat(dim_str(*r)).concat("x").concat(
                dim_str(*c),
            )
        },
        DeclaredType::TextureHandle => String::from_str("TextureHandle"),
        DeclaredType::BufferHandle => String::from_str("BufferHandle"),
        DeclaredType::AttributeValue(k, n) => {
            String::from_str("[").concat(scalar_str(*k)).concat("; ").concat(dim_str(*n)).concat(
                "]",
            )
        },
        DeclaredType::Named(s) => s.clone(),
    }
}

/// Classifies a declared type into its binding kind, or returns the
/// unsupported-type diagnostic attributed to `span`, exactly when no
/// classification rule matches.
pub fn classify(ty: &DeclaredType, span: SourceSpan) -> (r: Result<BindingKindTag, Diagnostic>)
    ensures
        r is Ok <==> classify_spec(ty@) is Some,
        r matches Ok(tag) ==> classify_spec(ty@) == Some(tag),
        r matches Err(d) ==> d@ == unsupported_diag(ty@, span),
{
    let tag = match ty {
        DeclaredType::Scalar(_) => Some(BindingKindTag::UniformScalar),
        DeclaredType::Vector(_, n) => {
            if 2 <= *n && *n <= 4 {
                Some(BindingKindTag::UniformVector)
            } else {
                None
            }
        },
        DeclaredType::Matrix(_, r, c) => {
            if 2 <= *r && *r <= 4 && 2 <= *c && *c <= 4 {
                Some(BindingKindTag::UniformMatrix)
            } else {
                None
            }
        },
        DeclaredType::TextureHandle => Some(BindingKindTag::Texture),
        DeclaredType::BufferHandle => Some(BindingKindTag::RawBuffer),
        DeclaredType::AttributeValue(_, n) => {
            if 1 <= *n && *n <= 4 {
                Some(BindingKindTag::VertexAttribute)
            } else {
                None
            }
        },
        DeclaredType::Named(_) => None,
    };
    match tag {
        Some(t) => Ok(t),
        None => Err(
            Diagnostic { kind: DiagnosticKind::UnsupportedType { type_text: type_text(ty) }, span },
        ),
    }
}

} // verus!
