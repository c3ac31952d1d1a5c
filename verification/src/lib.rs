//! Boilerplate for actor types, written out from a short annotation.
//!
//! An actor type is declared with an annotation that names three types: the
//! messages it takes, its state, and the arguments it is made with. From the
//! annotation and the declaration, `actor` writes the impl of `ractor::Actor`;
//! from a body, `actor_pre_start` and `actor_handle` write the two methods
//! that the impl calls. Source text goes in and source text comes out; a
//! fault comes out as a `Diagnostic` in place of the text.

use vstd::prelude::*;
use crate::ast::args::ValidatedActorArgsView;
use crate::ast::decl::{declaration, parse_declaration};
use crate::body::{normalized, parse_block_or_expr};
use crate::diag::{Diagnostic, DiagnosticView, Span};
use crate::expand::expand::{expand, expanded};
use crate::kw::ItemKey;
use crate::method::{handle_msg, handle_msg_text, on_start, on_start_text};
use crate::parse::actor_args::{
    collected, gives, has_key, lemma_collected, lemma_distinct_keys_are_accepted,
    lemma_key_order_is_irrelevant, parse_actor_args, parsed_args, rearranged, slot, ItemView,
};
use crate::validate::args::{validate_actor_args, validated, UNIT};

pub mod ast;
pub mod body;
pub mod diag;
pub mod expand;
pub mod kw;
pub mod method;
pub mod parse;
pub mod shape;
pub mod syntax;
pub mod token;
pub mod validate;

verus! {

/// What takes the place of an annotated declaration: the declaration with
/// the impl of the actor trait after it. The declaration is read first, then
/// the annotation's arguments, which are then validated; the first fault on
/// the way is the outcome.
pub open spec fn actor_text(attr: Seq<char>, item: Seq<char>) -> Result<Seq<char>, DiagnosticView> {
    match declaration(item) {
        Err(d) => Err(d),
        Ok(input) => match parsed_args(Span::Annotation, attr) {
            Err(d) => Err(d),
            Ok(raw) => match validated(raw) {
                Err(d) => Err(d),
                Ok(v) => Ok(expanded(input, v)),
            },
        },
    }
}

/// What takes the place of a body handed over for `on_start`: the method
/// round the body's one form, or the body's fault.
pub open spec fn pre_start_text(input: Seq<char>) -> Result<Seq<char>, DiagnosticView> {
    match normalized(input) {
        Err(d) => Err(d),
        Ok(block) => Ok(on_start_text(block)),
    }
}

/// What takes the place of a body handed over for `handle_msg`: the method
/// round the body's one form, or the body's fault.
pub open spec fn handle_text(input: Seq<char>) -> Result<Seq<char>, DiagnosticView> {
    match normalized(input) {
        Err(d) => Err(d),
        Ok(block) => Ok(handle_msg_text(block)),
    }
}

/// The arguments that items give, validated.
pub open spec fn valid_args(span: Span, items: Seq<ItemView>) -> Result<
    ValidatedActorArgsView,
    DiagnosticView,
> {
    match collected(span, items) {
        Err(d) => Err(d),
        Ok(raw) => validated(raw),
    }
}

/// An annotation whose items stand in another order is valid if and only if
/// the first is, and then gives the same three types.
pub proof fn lemma_order_does_not_change_validation(
    span: Span,
    a: Seq<ItemView>,
    b: Seq<ItemView>,
    to: Seq<int>,
    back: Seq<int>,
)
    requires
        rearranged(a, b, to, back),
    ensures
        valid_args(span, a) is Ok <==> valid_args(span, b) is Ok,
        valid_args(span, a) is Ok ==> valid_args(span, b) == valid_args(span, a),
{
    lemma_key_order_is_irrelevant(span, a, b, to, back);
}

/// An annotation that gives each key at most once, and `msg` and `state`
/// among them, is valid: the message type and the state type are those
/// given, and the arguments' type is the one given, or the unit type.
pub proof fn lemma_msg_and_state_suffice(
    span: Span,
    items: Seq<ItemView>,
    msg: Seq<char>,
    state: Seq<char>,
)
    requires
        forall|i: int, j: int| 0 <= i < j < items.len() ==> items[i].key != items[j].key,
        gives(items, ItemKey::Msg, msg),
        gives(items, ItemKey::State, state),
    ensures
        valid_args(span, items) is Ok,
        valid_args(span, items)->Ok_0.msg == msg,
        valid_args(span, items)->Ok_0.state == state,
        valid_args(span, items)->Ok_0.span == span,
        forall|args: Seq<char>|
            gives(items, ItemKey::Args, args) ==> valid_args(span, items)->Ok_0.args == args,
        !has_key(items, ItemKey::Args) ==> valid_args(span, items)->Ok_0.args == UNIT@,
{
    lemma_distinct_keys_are_accepted(span, items);
    lemma_collected(span, items);
    let raw = collected(span, items)->Ok_0;
    assert(slot(raw, ItemKey::Msg) == Some(msg));
    assert(slot(raw, ItemKey::State) == Some(state));
    assert forall|args: Seq<char>| gives(items, ItemKey::Args, args) implies valid_args(
        span,
        items,
    )->Ok_0.args == args by {
        assert(slot(raw, ItemKey::Args) == Some(args));
    }
    if !has_key(items, ItemKey::Args) {
        assert(slot(raw, ItemKey::Args) is None);
    }
}

/// Writes the impl of the actor trait for an annotated type. `attr` is the
/// text of the annotation's arguments, `item` the text of the declaration.
pub fn actor(attr: &str, item: &str) -> (r: Result<String, Diagnostic>)
    ensures
        actor_text(attr@, item@) == (match r {
            Ok(out) => Ok::<Seq<char>, DiagnosticView>(out@),
            Err(d) => Err::<Seq<char>, DiagnosticView>(d@),
        }),
{
    let input = match parse_declaration(item) {
        Ok(input) => input,
        Err(d) => {
            return Err(d);
        },
    };
    let raw = match parse_actor_args(Span::Annotation, attr) {
        Ok(raw) => raw,
        Err(d) => {
            return Err(d);
        },
    };
    match validate_actor_args(raw) {
        Ok(v) => Ok(expand(&input, &v)),
        Err(d) => Err(d),
    }
}

/// Writes the method `on_start` from its body, a block or an expression.
pub fn actor_pre_start(input: &str) -> (r: Result<String, Diagnostic>)
    ensures
        pre_start_text(input@) == (match r {
            Ok(out) => Ok::<Seq<char>, DiagnosticView>(out@),
            Err(d) => Err::<Seq<char>, DiagnosticView>(d@),
        }),
{
    match parse_block_or_expr(input) {
        Ok(body) => Ok(on_start(&body)),
        Err(d) => Err(d),
    }
}

/// Writes the method `handle_msg` from its body, a block or an expression.
pub fn actor_handle(input: &str) -> (r: Result<String, Diagnostic>)
    ensures
        handle_text(input@) == (match r {
            Ok(out) => Ok::<Seq<char>, DiagnosticView>(out@),
            Err(d) => Err::<Seq<char>, DiagnosticView>(d@),
        }),
{
    match parse_block_or_expr(input) {
        Ok(body) => Ok(handle_msg(&body)),
        Err(d) => Err(d),
    }
}

} // verus!
