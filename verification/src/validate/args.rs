//! Checks the annotation's arguments: the message type and the state type
//! must be given; the arguments' type may be left out.

use vstd::prelude::*;
use crate::ast::args::{ActorArgsRaw, ActorArgsRawView, ValidatedActorArgs, ValidatedActorArgsView};
use crate::diag::{diagnostic, Diagnostic, DiagnosticView, Span};

verus! {

/// The message for an annotation without a message type.
pub const MISSING_MSG: &'static str = "missing `msg=...`";

/// The message for an annotation without a state type.
pub const MISSING_STATE: &'static str = "missing `state=...`";

/// The type of the arguments where the annotation gives none: the unit type.
pub const UNIT: &'static str = "()";

/// The validated arguments that the raw ones give. A missing message type is
/// a fault, and so is a missing state type: both lie on the annotation as a
/// whole, and the message type is looked for first.
pub open spec fn validated(raw: ActorArgsRawView) -> Result<ValidatedActorArgsView, DiagnosticView> {
    match (raw.msg, raw.state) {
        (None, _) => Err(diagnostic(raw.span, MISSING_MSG@)),
        (Some(_), None) => Err(diagnostic(raw.span, MISSING_STATE@)),
        (Some(msg), Some(state)) => Ok(
            ValidatedActorArgsView {
                msg,
                state,
                args: match raw.args {
                    Some(args) => args,
                    None => UNIT@,
                },
                span: raw.span,
            },
        ),
    }
}

/// Hands out a field that is there; one that is missing is a fault at `at`
/// with the message `msg`.
pub fn require_field<T>(field: Option<T>, at: Span, msg: &str) -> (r: Result<T, Diagnostic>)
    ensures
        match field {
            Some(value) => r == Ok::<T, Diagnostic>(value),
            None => r is Err && r->Err_0@ == diagnostic(at, msg@),
        },
{
    match field {
        Some(value) => Ok(value),
        None => Err(Diagnostic::new(at, msg)),
    }
}

/// Turns raw arguments into validated ones.
pub fn validate_actor_args(raw: ActorArgsRaw) -> (r: Result<ValidatedActorArgs, Diagnostic>)
    ensures
        validated(raw@) == (match r {
            Ok(v) => Ok::<ValidatedActorArgsView, DiagnosticView>(v@),
            Err(d) => Err::<ValidatedActorArgsView, DiagnosticView>(d@),
        }),
{
    let ActorArgsRaw { msg, state, args, span } = raw;
    let msg = match require_field(msg, span, MISSING_MSG) {
        Ok(msg) => msg,
        Err(d) => {
            return Err(d);
        },
    };
    let state = match require_field(state, span, MISSING_STATE) {
        Ok(state) => state,
        Err(d) => {
            return Err(d);
        },
    };
    let args = match args {
        Some(args) => args,
        None => String::from_str(UNIT),
    };
    Ok(ValidatedActorArgs { msg, state, args, span })
}

/// Whether `part` stands somewhere in `whole`.
pub open spec fn occurs_in(part: Seq<char>, whole: Seq<char>) -> bool {
    exists|at: int|
        0 <= at && at + part.len() <= whole.len() && #[trigger] whole.subrange(
            at,
            at + part.len(),
        ) == part
}

/// Arguments with a message type and a state type are valid, whatever else
/// they hold: the two types are kept, and the arguments' type is the one
/// given, or the unit type where none is given.
pub proof fn lemma_complete_args_are_valid(raw: ActorArgsRawView)
    requires
        raw.msg is Some,
        raw.state is Some,
    ensures
        validated(raw) is Ok,
        validated(raw)->Ok_0.msg == raw.msg->Some_0,
        validated(raw)->Ok_0.state == raw.state->Some_0,
        raw.args is Some ==> validated(raw)->Ok_0.args == raw.args->Some_0,
        raw.args is None ==> validated(raw)->Ok_0.args == UNIT@,
        validated(raw)->Ok_0.span == raw.span,
{
}

/// Arguments without a message type are refused with a message that names
/// `msg`, at the place the arguments were tagged with.
pub proof fn lemma_missing_msg_is_named(raw: ActorArgsRawView)
    requires
        raw.msg is None,
    ensures
        validated(raw) is Err,
        validated(raw)->Err_0.span == raw.span,
        occurs_in("msg"@, validated(raw)->Err_0.message),
{
    reveal_strlit("missing `msg=...`");
    reveal_strlit("msg");
    let at: int = 9;
    assert(MISSING_MSG@.subrange(at, at + "msg"@.len()) == "msg"@);
}

/// Arguments with a message type and without a state type are refused with
/// a message that names `state`.
pub proof fn lemma_missing_state_is_named(raw: ActorArgsRawView)
    requires
        raw.msg is Some,
        raw.state is None,
    ensures
        validated(raw) is Err,
        validated(raw)->Err_0.span == raw.span,
        occurs_in("state"@, validated(raw)->Err_0.message),
{
    reveal_strlit("missing `state=...`");
    reveal_strlit("state");
    let at: int = 9;
    assert(MISSING_STATE@.subrange(at, at + "state"@.len()) == "state"@);
}

} // verus!
