//! Writes the two methods that an actor type has for itself: `on_start`,
//! which makes the first state, and `handle_msg`, which takes one message.

use vstd::prelude::*;
use crate::body::NormalizedBody;
use crate::shape::{fn_opening, fn_words, guard, guard_text, return_text, return_type, Shape};

verus! {

/// The parameters of `on_start`: the actor, a reference to itself, and the
/// arguments it was made with.
pub const ON_START_PARAMS: &'static str =
    "(&self, myself: ractor::ActorRef<<Self as ractor::Actor>::Msg>, args: <Self as ractor::Actor>::Arguments,)";

/// What `on_start` resolves to: the first state, or an error.
pub const ON_START_OUTPUT: &'static str =
    "::core::result::Result<(<Self as ractor::Actor>::State), ractor::ActorProcessingErr>";

/// The parameters of `handle_msg`: the actor, a reference to itself, the
/// message, and the state to change.
pub const HANDLE_MSG_PARAMS: &'static str =
    "(&self, myself: ractor::ActorRef<<Self as ractor::Actor>::Msg>, msg: <Self as ractor::Actor>::Msg, state: &mut <Self as ractor::Actor>::State,)";

/// What `handle_msg` resolves to: nothing, or an error.
pub const HANDLE_MSG_OUTPUT: &'static str =
    "::core::result::Result<(), ractor::ActorProcessingErr>";

/// What stands between a method's signature and its body.
pub open spec fn body_open_text(shape: Shape) -> Seq<char> {
    match shape {
        Shape::NativeAsync => " {\n"@,
        Shape::ShimAsync => " {\n    async move {\n"@,
    }
}

/// What closes a method after its body.
pub open spec fn body_close_text(shape: Shape) -> Seq<char> {
    match shape {
        Shape::NativeAsync => "\n}\n"@,
        Shape::ShimAsync => "\n    }\n}\n"@,
    }
}

/// A method up to its body: the guard of its shape and its signature. The
/// name and the parameters are those given, whatever the shape.
pub open spec fn method_lead_text(
    shape: Shape,
    name: Seq<char>,
    params: Seq<char>,
    output: Seq<char>,
) -> Seq<char> {
    guard_text(shape) + "pub "@ + fn_words(shape) + name + params + " -> "@ + return_text(
        shape,
        output,
    ) + body_open_text(shape)
}

/// A method in one shape: what leads up to the body, the body as it is, and
/// what closes the method.
pub open spec fn method_text(
    shape: Shape,
    name: Seq<char>,
    params: Seq<char>,
    output: Seq<char>,
    body: Seq<char>,
) -> Seq<char> {
    method_lead_text(shape, name, params, output) + body + body_close_text(shape)
}

/// A method in both shapes, each under its guard.
pub open spec fn both_shapes_text(
    name: Seq<char>,
    params: Seq<char>,
    output: Seq<char>,
    body: Seq<char>,
) -> Seq<char> {
    method_text(Shape::NativeAsync, name, params, output, body) + method_text(
        Shape::ShimAsync,
        name,
        params,
        output,
        body,
    )
}

/// The method `on_start` with this body, in both shapes.
pub open spec fn on_start_text(body: Seq<char>) -> Seq<char> {
    both_shapes_text("on_start"@, ON_START_PARAMS@, ON_START_OUTPUT@, body)
}

/// The method `handle_msg` with this body, in both shapes.
pub open spec fn handle_msg_text(body: Seq<char>) -> Seq<char> {
    both_shapes_text("handle_msg"@, HANDLE_MSG_PARAMS@, HANDLE_MSG_OUTPUT@, body)
}

fn method_lead(shape: Shape, name: &str, params: &str, output: &str) -> (out: String)
    ensures
        out@ == method_lead_text(shape, name@, params@, output@),
{
    let mut out = guard(shape);
    out.append("pub ");
    out.append(fn_opening(shape));
    out.append(name);
    out.append(params);
    out.append(" -> ");
    out.append(return_type(shape, output).as_str());
    match shape {
        Shape::NativeAsync => out.append(" {\n"),
        Shape::ShimAsync => out.append(" {\n    async move {\n"),
    }
    out
}

/// Writes a method in one shape round a body.
pub fn method(shape: Shape, name: &str, params: &str, output: &str, body: &NormalizedBody) -> (out:
    String)
    ensures
        out@ == method_text(shape, name@, params@, output@, body@),
{
    let mut out = method_lead(shape, name, params, output);
    out.append(body.block.as_str());
    match shape {
        Shape::NativeAsync => out.append("\n}\n"),
        Shape::ShimAsync => out.append("\n    }\n}\n"),
    }
    out
}

fn both_shapes(name: &str, params: &str, output: &str, body: &NormalizedBody) -> (out: String)
    ensures
        out@ == both_shapes_text(name@, params@, output@, body@),
{
    let mut out = method(Shape::NativeAsync, name, params, output, body);
    out.append(method(Shape::ShimAsync, name, params, output, body).as_str());
    out
}

/// Writes `on_start` round a body, in both shapes.
pub fn on_start(body: &NormalizedBody) -> (out: String)
    ensures
        out@ == on_start_text(body@),
{
    both_shapes("on_start", ON_START_PARAMS, ON_START_OUTPUT, body)
}

/// Writes `handle_msg` round a body, in both shapes.
pub fn handle_msg(body: &NormalizedBody) -> (out: String)
    ensures
        out@ == handle_msg_text(body@),
{
    both_shapes("handle_msg", HANDLE_MSG_PARAMS, HANDLE_MSG_OUTPUT, body)
}

/// The two shapes of a method carry the same body: each is made of a lead,
/// the body and a close, and neither the lead nor the close depends on the
/// body. So two methods of one shape differ in their bodies alone.
pub proof fn lemma_shapes_carry_the_body(
    shape: Shape,
    name: Seq<char>,
    params: Seq<char>,
    output: Seq<char>,
    body: Seq<char>,
    other: Seq<char>,
)
    ensures
        method_text(shape, name, params, output, body) == method_lead_text(
            shape,
            name,
            params,
            output,
        ) + body + body_close_text(shape),
        method_text(shape, name, params, output, other) == method_lead_text(
            shape,
            name,
            params,
            output,
        ) + other + body_close_text(shape),
{
}

} // verus!
