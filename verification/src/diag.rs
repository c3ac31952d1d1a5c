//! Diagnostics: what went wrong, and where in the source.

use vstd::prelude::*;

verus! {

/// A place in the source that a diagnostic points at.
#[derive(Clone, Copy, Debug, PartialEq, Eq, Structural)]
pub enum Span {
    /// The annotation as a whole.
    Annotation,
    /// One token of the annotation's argument list, by its index.
    Token(usize),
    /// The text that the annotation is applied to: a declaration or a body.
    Input,
}

/// A failure that takes the place of the output.
#[derive(Debug)]
pub struct Diagnostic {
    pub span: Span,
    pub message: String,
}

/// What a `Diagnostic` holds, as mathematical values.
pub struct DiagnosticView {
    pub span: Span,
    pub message: Seq<char>,
}

impl View for Diagnostic {
    type V = DiagnosticView;

    open spec fn view(&self) -> DiagnosticView {
        DiagnosticView { span: self.span, message: self.message@ }
    }
}

/// The diagnostic with this place and this message.
pub open spec fn diagnostic(span: Span, message: Seq<char>) -> DiagnosticView {
    DiagnosticView { span, message }
}

impl Diagnostic {
    /// The diagnostic with this place and this message.
    pub fn new(span: Span, message: &str) -> (d: Diagnostic)
        ensures
            d@ == diagnostic(span, message@),
    {
        Diagnostic { span, message: String::from_str(message) }
    }

    /// The message, as the diagnostic is printed.
    pub fn to_string(&self) -> (s: String)
        ensures
            s@ == self@.message,
    {
        self.message.clone()
    }
}

} // verus!
