//! The declaration that the annotation stands on.

use vstd::prelude::*;
use crate::diag::{diagnostic, Diagnostic, DiagnosticView, Span};
use crate::syntax::{declaration_head, declared, DeclarationHead, DeclarationHeadView};

verus! {

/// A type's declaration: its text, which is copied and never looked into, and
/// the parts of its head that an impl for the type repeats.
#[derive(Debug)]
pub struct TypeDeclaration {
    pub source: String,
    pub head: DeclarationHead,
}

/// What a `TypeDeclaration` holds, as mathematical values.
pub struct TypeDeclarationView {
    pub source: Seq<char>,
    pub head: DeclarationHeadView,
}

impl View for TypeDeclaration {
    type V = TypeDeclarationView;

    open spec fn view(&self) -> TypeDeclarationView {
        TypeDeclarationView { source: self.source@, head: self.head@ }
    }
}

/// The declaration that a text holds: the text itself with the head that
/// `syn` finds in it; where `syn` does not read the text as a declaration,
/// its complaint, laid on the input.
pub open spec fn declaration(src: Seq<char>) -> Result<TypeDeclarationView, DiagnosticView> {
    match declared(src) {
        Ok(head) => Ok(TypeDeclarationView { source: src, head }),
        Err(message) => Err(diagnostic(Span::Input, message)),
    }
}

/// Reads the declaration of a struct, an enum or a union.
pub fn parse_declaration(src: &str) -> (r: Result<TypeDeclaration, Diagnostic>)
    ensures
        declaration(src@) == (match r {
            Ok(decl) => Ok::<TypeDeclarationView, DiagnosticView>(decl@),
            Err(d) => Err::<TypeDeclarationView, DiagnosticView>(d@),
        }),
{
    match declaration_head(src) {
        Ok(head) => Ok(TypeDeclaration { source: String::from_str(src), head }),
        Err(message) => Err(Diagnostic { span: Span::Input, message }),
    }
}

} // verus!
