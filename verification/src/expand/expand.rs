//! Writes the impl of `ractor::Actor` for an annotated type.

use vstd::prelude::*;
use crate::ast::args::{ValidatedActorArgs, ValidatedActorArgsView};
use crate::ast::decl::{TypeDeclaration, TypeDeclarationView};
use crate::shape::{fn_opening, fn_words, guard, guard_text, return_text, return_type, Shape};
use crate::syntax::DeclarationHeadView;

verus! {

/// The parameters of the trait's `pre_start`.
pub const PRE_START_PARAMS: &'static str =
    "(&self, myself: ::ractor::ActorRef<Self::Msg>, args: Self::Arguments)";

/// What `pre_start` resolves to.
pub const PRE_START_OUTPUT: &'static str =
    "::core::result::Result<Self::State, ::ractor::ActorProcessingErr>";

/// The call that `pre_start` hands its work to.
pub const PRE_START_CALL: &'static str = "self.on_start(myself, args)";

/// The parameters of the trait's `handle`.
pub const HANDLE_PARAMS: &'static str =
    "(&self, myself: ::ractor::ActorRef<Self::Msg>, msg: Self::Msg, state: &mut Self::State)";

/// What `handle` resolves to.
pub const HANDLE_OUTPUT: &'static str =
    "::core::result::Result<(), ::ractor::ActorProcessingErr>";

/// The call that `handle` hands its work to.
pub const HANDLE_CALL: &'static str = "self.handle_msg(myself, msg, state)";

/// The attribute that an impl with `async fn` methods needs.
pub open spec fn impl_attribute_text(shape: Shape) -> Seq<char> {
    match shape {
        Shape::NativeAsync => "#[::ractor::async_trait]\n"@,
        Shape::ShimAsync => Seq::empty(),
    }
}

/// What follows a call that gives a future, up to the end of the method:
/// `.await` in an `async fn`, nothing in a method that returns the future.
pub open spec fn call_end_text(shape: Shape) -> Seq<char> {
    match shape {
        Shape::NativeAsync => ".await\n    }\n"@,
        Shape::ShimAsync => "\n    }\n"@,
    }
}

/// The line that opens the impl: the type's generics are passed through.
pub open spec fn impl_line_text(head: DeclarationHeadView) -> Seq<char> {
    "impl"@ + head.impl_generics + " ::ractor::Actor for "@ + head.name + head.ty_generics + " "@
        + head.where_clause + " {\n"@
}

/// The three associated types, each set to the type of the annotation.
pub open spec fn associated_types_text(v: ValidatedActorArgsView) -> Seq<char> {
    "    type Msg = "@ + v.msg + ";\n    type State = "@ + v.state
        + ";\n    type Arguments = "@ + v.args + ";\n"@
}

/// One method of the trait, which does nothing but call the method of the
/// same work that the type has for itself.
pub open spec fn delegate_text(
    shape: Shape,
    name: Seq<char>,
    params: Seq<char>,
    output: Seq<char>,
    call: Seq<char>,
) -> Seq<char> {
    "\n    "@ + fn_words(shape) + name + params + " -> "@ + return_text(shape, output)
        + " {\n        "@ + call + call_end_text(shape)
}

/// The impl of the actor trait in one shape.
pub open spec fn actor_impl_text(
    input: TypeDeclarationView,
    v: ValidatedActorArgsView,
    shape: Shape,
) -> Seq<char> {
    impl_attribute_text(shape) + impl_line_text(input.head) + associated_types_text(v)
        + delegate_text(
        shape,
        "pre_start"@,
        PRE_START_PARAMS@,
        PRE_START_OUTPUT@,
        PRE_START_CALL@,
    ) + delegate_text(shape, "handle"@, HANDLE_PARAMS@, HANDLE_OUTPUT@, HANDLE_CALL@) + "}\n"@
}

/// All that takes the place of the annotated declaration: the declaration
/// as it was, then the impl in each shape under that shape's guard.
pub open spec fn expanded(input: TypeDeclarationView, v: ValidatedActorArgsView) -> Seq<char> {
    input.source + "\n"@ + guard_text(Shape::NativeAsync) + actor_impl_text(
        input,
        v,
        Shape::NativeAsync,
    ) + guard_text(Shape::ShimAsync) + actor_impl_text(input, v, Shape::ShimAsync)
}

fn impl_line(input: &TypeDeclaration) -> (out: String)
    ensures
        out@ == impl_line_text(input@.head),
{
    let mut out = String::from_str("impl");
    out.append(input.head.impl_generics.as_str());
    out.append(" ::ractor::Actor for ");
    out.append(input.head.name.as_str());
    out.append(input.head.ty_generics.as_str());
    out.append(" ");
    out.append(input.head.where_clause.as_str());
    out.append(" {\n");
    out
}

fn associated_types(v: &ValidatedActorArgs) -> (out: String)
    ensures
        out@ == associated_types_text(v@),
{
    let mut out = String::from_str("    type Msg = ");
    out.append(v.msg.as_str());
    out.append(";\n    type State = ");
    out.append(v.state.as_str());
    out.append(";\n    type Arguments = ");
    out.append(v.args.as_str());
    out.append(";\n");
    out
}

fn delegate(shape: Shape, name: &str, params: &str, output: &str, call: &str) -> (out: String)
    ensures
        out@ == delegate_text(shape, name@, params@, output@, call@),
{
    let mut out = String::from_str("\n    ");
    out.append(fn_opening(shape));
    out.append(name);
    out.append(params);
    out.append(" -> ");
    out.append(return_type(shape, output).as_str());
    out.append(" {\n        ");
    out.append(call);
    match shape {
        Shape::NativeAsync => out.append(".await\n    }\n"),
        Shape::ShimAsync => out.append("\n    }\n"),
    }
    out
}

/// Writes the impl of the actor trait for the declared type in one shape:
/// the associated types are those of the annotation, and the two methods
/// call `on_start` and `handle_msg`.
pub fn actor_impl(input: &TypeDeclaration, v: &ValidatedActorArgs, shape: Shape) -> (out: String)
    ensures
        out@ == actor_impl_text(input@, v@, shape),
{
    let mut out = match shape {
        Shape::NativeAsync => String::from_str("#[::ractor::async_trait]\n"),
        Shape::ShimAsync => String::new(),
    };
    out.append(impl_line(input).as_str());
    out.append(associated_types(v).as_str());
    out.append(
        delegate(shape, "pre_start", PRE_START_PARAMS, PRE_START_OUTPUT, PRE_START_CALL).as_str(),
    );
    out.append(delegate(shape, "handle", HANDLE_PARAMS, HANDLE_OUTPUT, HANDLE_CALL).as_str());
    out.append("}\n");
    out
}

/// Writes the declaration as it was, then the impl of the actor trait in
/// both shapes, each under its guard.
pub fn expand(input: &TypeDeclaration, v: &ValidatedActorArgs) -> (out: String)
    ensures
        out@ == expanded(input@, v@),
{
    let mut out = String::from_str(input.source.as_str());
    out.append("\n");
    out.append(guard(Shape::NativeAsync).as_str());
    out.append(actor_impl(input, v, Shape::NativeAsync).as_str());
    out.append(guard(Shape::ShimAsync).as_str());
    out.append(actor_impl(input, v, Shape::ShimAsync).as_str());
    out
}

/// The expansion begins with the declaration as it was, character for
/// character: nothing of it is changed or left out.
pub proof fn lemma_declaration_is_kept(input: TypeDeclarationView, v: ValidatedActorArgsView)
    ensures
        input.source.len() <= expanded(input, v).len(),
        expanded(input, v).subrange(0, input.source.len() as int) == input.source,
{
    let rest = "\n"@ + guard_text(Shape::NativeAsync) + actor_impl_text(
        input,
        v,
        Shape::NativeAsync,
    ) + guard_text(Shape::ShimAsync) + actor_impl_text(input, v, Shape::ShimAsync);
    assert(expanded(input, v) == input.source + rest);
    assert((input.source + rest).subrange(0, input.source.len() as int) == input.source);
}

} // verus!
