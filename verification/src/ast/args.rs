//! The annotation's arguments, before and after validation.

use vstd::prelude::*;
use crate::diag::Span;

verus! {

/// The arguments as they were written: each of the three types is there or
/// not. A type is held as its text.
#[derive(Debug)]
pub struct ActorArgsRaw {
    pub msg: Option<String>,
    pub state: Option<String>,
    pub args: Option<String>,
    pub span: Span,
}

/// What an `ActorArgsRaw` holds, as mathematical values.
pub struct ActorArgsRawView {
    pub msg: Option<Seq<char>>,
    pub state: Option<Seq<char>>,
    pub args: Option<Seq<char>>,
    pub span: Span,
}

/// The text of a type that may be missing.
pub open spec fn text_of(field: Option<String>) -> Option<Seq<char>> {
    match field {
        Some(text) => Some(text@),
        None => None,
    }
}

impl View for ActorArgsRaw {
    type V = ActorArgsRawView;

    open spec fn view(&self) -> ActorArgsRawView {
        ActorArgsRawView {
            msg: text_of(self.msg),
            state: text_of(self.state),
            args: text_of(self.args),
            span: self.span,
        }
    }
}

/// The arguments with nothing given yet.
pub open spec fn no_args(span: Span) -> ActorArgsRawView {
    ActorArgsRawView { msg: None, state: None, args: None, span }
}

impl ActorArgsRaw {
    /// Arguments with nothing given yet, tagged with the place that faults
    /// of the whole are laid on.
    pub fn new(span: Span) -> (raw: Self)
        ensures
            raw@ == no_args(span),
    {
        Self { msg: None, state: None, args: None, span }
    }
}

/// The arguments after validation: the message type and the state type were
/// given, and the arguments' type is the one given or the unit type.
#[non_exhaustive]
#[derive(Debug)]
pub struct ValidatedActorArgs {
    pub msg: String,
    pub state: String,
    pub args: String,
    pub span: Span,
}

/// What a `ValidatedActorArgs` holds, as mathematical values.
pub struct ValidatedActorArgsView {
    pub msg: Seq<char>,
    pub state: Seq<char>,
    pub args: Seq<char>,
    pub span: Span,
}

impl View for ValidatedActorArgs {
    type V = ValidatedActorArgsView;

    open spec fn view(&self) -> ValidatedActorArgsView {
        ValidatedActorArgsView {
            msg: self.msg@,
            state: self.state@,
            args: self.args@,
            span: self.span,
        }
    }
}

} // verus!
