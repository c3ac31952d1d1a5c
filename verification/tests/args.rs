use dsl_ractor::ast::args::ActorArgsRaw;
use dsl_ractor::diag::{Diagnostic, Span};
use dsl_ractor::kw::{keyword, name, ItemKey};
use dsl_ractor::parse::actor_args::{
    collect_items, duplicate_message, parse_actor_args, parse_items, store, Item,
    END_BEFORE_EQ, EXPECTED_EQ, EXPECTED_KEY,
};
use dsl_ractor::token::{is_mark, render, same_text, Token, TokenKind};
use dsl_ractor::validate::args::{
    require_field, validate_actor_args, MISSING_MSG, MISSING_STATE, UNIT,
};

fn ident(text: &str) -> Token {
    Token { kind: TokenKind::Ident, joint: false, text: text.to_string() }
}

fn punct(text: &str, joint: bool) -> Token {
    Token { kind: TokenKind::Punct, joint, text: text.to_string() }
}

fn item(key: ItemKey, at: usize, val: &str) -> Item {
    Item { key, key_span: Span::Token(at), val: val.to_string() }
}

fn raw(msg: Option<&str>, state: Option<&str>, args: Option<&str>) -> ActorArgsRaw {
    ActorArgsRaw {
        msg: msg.map(|s| s.to_string()),
        state: state.map(|s| s.to_string()),
        args: args.map(|s| s.to_string()),
        span: Span::Annotation,
    }
}

fn fault(r: Result<ActorArgsRaw, Diagnostic>) -> Diagnostic {
    match r {
        Ok(_) => panic!("the annotation was accepted"),
        Err(d) => d,
    }
}

#[test]
fn new_raw_args_are_empty() {
    let raw = ActorArgsRaw::new(Span::Token(3));
    assert_eq!(raw.msg, None);
    assert_eq!(raw.state, None);
    assert_eq!(raw.args, None);
    assert_eq!(raw.span, Span::Token(3));
}

#[test]
fn keys_are_spelled_and_read() {
    assert_eq!(name(ItemKey::Msg), "msg");
    assert_eq!(name(ItemKey::State), "state");
    assert_eq!(name(ItemKey::Args), "args");
    assert_eq!(keyword("msg"), Some(ItemKey::Msg));
    assert_eq!(keyword("state"), Some(ItemKey::State));
    assert_eq!(keyword("args"), Some(ItemKey::Args));
    assert_eq!(keyword("Msg"), None);
    assert_eq!(keyword("r#msg"), None);
    assert_eq!(keyword(""), None);
}

#[test]
fn texts_are_compared_by_characters() {
    assert!(same_text("msg", "msg"));
    assert!(!same_text("msg", "msg "));
    assert!(same_text("", ""));
}

#[test]
fn marks_are_punctuation_only() {
    assert!(is_mark(&punct(",", false), ","));
    assert!(is_mark(&punct(",", true), ","));
    assert!(!is_mark(&punct("=", false), ","));
    assert!(!is_mark(&ident(","), ","));
}

#[test]
fn tokens_are_written_with_blanks_unless_joint() {
    let tokens = vec![
        ident("a"),
        punct(":", true),
        punct(":", false),
        ident("B"),
        punct("<", false),
        ident("C"),
        punct(">", false),
    ];
    assert_eq!(render(&tokens), "a :: B < C >");
    assert_eq!(render(&tokens[3..].iter().map(|t| Token { kind: t.kind, joint: t.joint, text: t.text.clone() }).collect()), "B < C >");
    assert_eq!(render(&vec![punct(":", true), punct(":", true)]), "::");
    assert_eq!(render(&Vec::new()), "");
}

#[test]
fn two_items_are_parsed() {
    let raw = parse_actor_args(Span::Annotation, "msg = MsgT, state = i64").unwrap();
    assert_eq!(raw.msg.as_deref(), Some("MsgT"));
    assert_eq!(raw.state.as_deref(), Some("i64"));
    assert_eq!(raw.args, None);
    assert_eq!(raw.span, Span::Annotation);
}

#[test]
fn three_items_and_a_trailing_comma_are_parsed() {
    let raw = parse_actor_args(Span::Input, "msg=CounterMsg,state=i16,args=i16,").unwrap();
    assert_eq!(raw.msg.as_deref(), Some("CounterMsg"));
    assert_eq!(raw.state.as_deref(), Some("i16"));
    assert_eq!(raw.args.as_deref(), Some("i16"));
    assert_eq!(raw.span, Span::Input);
}

#[test]
fn an_empty_annotation_has_no_items() {
    let raw = parse_actor_args(Span::Annotation, "").unwrap();
    assert_eq!(raw.msg, None);
    assert_eq!(raw.state, None);
    assert_eq!(raw.args, None);
    assert!(parse_items(&Vec::new()).unwrap().is_empty());
}

#[test]
fn types_with_commas_inside_are_one_value() {
    let raw = parse_actor_args(
        Span::Annotation,
        "msg = HashMap<String, Vec<u8>>, state = (i32, i32), args = [u8; 4]",
    )
    .unwrap();
    assert_eq!(raw.msg.as_deref(), Some("HashMap < String , Vec < u8 >>"));
    assert_eq!(raw.state.as_deref(), Some("(i32 , i32)"));
    assert_eq!(raw.args.as_deref(), Some("[u8 ; 4]"));
}

#[test]
fn a_type_may_hold_an_equals_sign() {
    let raw = parse_actor_args(
        Span::Annotation,
        "state = Box<dyn Iterator<Item = u8>>, msg = &'static str",
    )
    .unwrap();
    assert_eq!(raw.state.as_deref(), Some("Box < dyn Iterator < Item = u8 >>"));
    assert_eq!(raw.msg.as_deref(), Some("&'static str"));
}

#[test]
fn items_carry_the_place_of_their_key() {
    let tokens = vec![
        ident("state"),
        punct("=", false),
        ident("i64"),
        punct(",", false),
        ident("msg"),
        punct("=", false),
        ident("MsgT"),
    ];
    let items = parse_items(&tokens).unwrap();
    assert_eq!(items.len(), 2);
    assert_eq!(items[0].key, ItemKey::State);
    assert_eq!(items[0].key_span, Span::Token(0));
    assert_eq!(items[0].val, "i64");
    assert_eq!(items[1].key, ItemKey::Msg);
    assert_eq!(items[1].key_span, Span::Token(4));
    assert_eq!(items[1].val, "MsgT");
}

#[test]
fn an_unknown_key_is_refused_at_its_token() {
    let d = fault(parse_actor_args(Span::Annotation, "msg = A, colour = B"));
    assert_eq!(d.span, Span::Token(4));
    assert_eq!(d.message, EXPECTED_KEY);
    assert_eq!(d.message, "expected one of: `msg`, `state`, `args`");
    let d = fault(parse_actor_args(Span::Annotation, "42 = A"));
    assert_eq!(d.span, Span::Token(0));
    assert_eq!(d.message, EXPECTED_KEY);
}

#[test]
fn a_key_without_equals_is_refused() {
    let d = fault(parse_actor_args(Span::Annotation, "msg A"));
    assert_eq!(d.span, Span::Token(1));
    assert_eq!(d.message, EXPECTED_EQ);
    assert_eq!(d.message, "expected `=`");
    let d = fault(parse_actor_args(Span::Annotation, "msg = A, state"));
    assert_eq!(d.span, Span::Annotation);
    assert_eq!(d.message, END_BEFORE_EQ);
    assert_eq!(d.message, "unexpected end of input, expected `=`");
}

#[test]
fn a_value_that_is_no_type_is_refused() {
    let d = fault(parse_actor_args(Span::Annotation, "msg = , state = i32"));
    assert_eq!(d.span, Span::Token(2));
    assert!(!d.message.is_empty());
    let d = fault(parse_actor_args(Span::Annotation, "msg ="));
    assert_eq!(d.span, Span::Annotation);
    assert!(!d.message.is_empty());
    let d = fault(parse_actor_args(Span::Annotation, "msg = A B, state = C"));
    assert_eq!(d.span, Span::Token(2));
    let d = fault(parse_actor_args(Span::Annotation, "msg = Vec<u8, state = C"));
    assert_eq!(d.span, Span::Token(2));
}

#[test]
fn a_text_that_does_not_lex_is_refused() {
    let d = fault(parse_actor_args(Span::Token(7), "msg = (A"));
    assert_eq!(d.span, Span::Annotation);
    assert!(!d.message.is_empty());
}

#[test]
fn a_duplicate_key_is_refused_at_the_second_key() {
    let d = fault(parse_actor_args(Span::Annotation, "msg = A, msg = B"));
    assert_eq!(d.span, Span::Token(4));
    assert_eq!(d.message, "duplicate `msg` argument");
    let d = fault(parse_actor_args(Span::Annotation, "msg = A, state = S, state = T, msg = B"));
    assert_eq!(d.span, Span::Token(8));
    assert_eq!(d.message, "duplicate `state` argument");
    let d = fault(parse_actor_args(Span::Annotation, "args = A, args = A"));
    assert_eq!(d.span, Span::Token(4));
    assert_eq!(d.message, "duplicate `args` argument");
    assert_eq!(duplicate_message(ItemKey::State), "duplicate `state` argument");
}

#[test]
fn a_syntax_fault_comes_before_a_duplicate() {
    let d = fault(parse_actor_args(Span::Annotation, "msg = A, msg = B, colour = C"));
    assert_eq!(d.span, Span::Token(8));
    assert_eq!(d.message, EXPECTED_KEY);
}

#[test]
fn store_sets_a_free_slot_and_keeps_a_taken_one() {
    let first = store(ActorArgsRaw::new(Span::Annotation), item(ItemKey::State, 0, "i64")).unwrap();
    assert_eq!(first.state.as_deref(), Some("i64"));
    assert_eq!(first.msg, None);
    let second = store(first, item(ItemKey::Msg, 4, "MsgT")).unwrap();
    assert_eq!(second.state.as_deref(), Some("i64"));
    assert_eq!(second.msg.as_deref(), Some("MsgT"));
    let d = fault(store(second, item(ItemKey::State, 8, "u8")));
    assert_eq!(d.span, Span::Token(8));
    assert_eq!(d.message, "duplicate `state` argument");
}

#[test]
fn collected_items_do_not_depend_on_their_order() {
    let forward = vec![item(ItemKey::Msg, 0, "MsgT"), item(ItemKey::State, 4, "i64")];
    let reversed = vec![item(ItemKey::State, 0, "i64"), item(ItemKey::Msg, 4, "MsgT")];
    let a = collect_items(Span::Annotation, &forward).unwrap();
    let b = collect_items(Span::Annotation, &reversed).unwrap();
    assert_eq!(a.msg, b.msg);
    assert_eq!(a.state, b.state);
    assert_eq!(a.args, b.args);
    assert_eq!(a.span, b.span);
    assert_eq!(a.msg.as_deref(), Some("MsgT"));
    assert_eq!(a.state.as_deref(), Some("i64"));
}

#[test]
fn collecting_stops_at_the_first_repeated_key() {
    let items = vec![
        item(ItemKey::Args, 0, "A"),
        item(ItemKey::Msg, 4, "M"),
        item(ItemKey::Args, 8, "B"),
        item(ItemKey::Msg, 12, "N"),
    ];
    let d = fault(collect_items(Span::Annotation, &items));
    assert_eq!(d.span, Span::Token(8));
    assert_eq!(d.message, "duplicate `args` argument");
}

#[test]
fn complete_args_are_valid() {
    let v = validate_actor_args(raw(Some("MsgT"), Some("i64"), Some("Config"))).unwrap();
    assert_eq!(v.msg, "MsgT");
    assert_eq!(v.state, "i64");
    assert_eq!(v.args, "Config");
    assert_eq!(v.span, Span::Annotation);
}

#[test]
fn missing_args_become_the_unit_type() {
    let v = validate_actor_args(raw(Some("MsgT"), Some("i64"), None)).unwrap();
    assert_eq!(v.msg, "MsgT");
    assert_eq!(v.state, "i64");
    assert_eq!(v.args, "()");
    assert_eq!(v.args, UNIT);
}

#[test]
fn a_missing_msg_is_named() {
    let d = validate_actor_args(raw(None, Some("i64"), Some("A"))).unwrap_err();
    assert_eq!(d.message, "missing `msg=...`");
    assert_eq!(d.message, MISSING_MSG);
    assert!(d.message.contains("msg"));
    assert_eq!(d.span, Span::Annotation);
}

#[test]
fn a_missing_state_is_named() {
    let d = validate_actor_args(raw(Some("MsgT"), None, None)).unwrap_err();
    assert_eq!(d.message, "missing `state=...`");
    assert_eq!(d.message, MISSING_STATE);
    assert!(d.message.contains("state"));
    assert_eq!(d.span, Span::Annotation);
}

#[test]
fn with_both_missing_msg_is_named_first() {
    let mut nothing = ActorArgsRaw::new(Span::Input);
    nothing.args = Some("A".to_string());
    let d = validate_actor_args(nothing).unwrap_err();
    assert_eq!(d.message, "missing `msg=...`");
    assert_eq!(d.span, Span::Input);
}

#[test]
fn reversed_keys_validate_alike() {
    let a = validate_actor_args(
        parse_actor_args(Span::Annotation, "msg=MsgT, state=i64").unwrap(),
    )
    .unwrap();
    let b = validate_actor_args(
        parse_actor_args(Span::Annotation, "state=i64, msg=MsgT").unwrap(),
    )
    .unwrap();
    assert_eq!(a.msg, b.msg);
    assert_eq!(a.state, b.state);
    assert_eq!(a.args, b.args);
    assert_eq!(a.span, b.span);
    assert_eq!(b.msg, "MsgT");
    assert_eq!(b.state, "i64");
    assert_eq!(b.args, "()");
}

#[test]
fn a_required_field_is_handed_out_or_missed() {
    assert_eq!(require_field(Some(7u8), Span::Annotation, "gone").unwrap(), 7);
    let d = require_field::<u8>(None, Span::Token(2), "gone").unwrap_err();
    assert_eq!(d.span, Span::Token(2));
    assert_eq!(d.message, "gone");
}

#[test]
fn a_diagnostic_prints_its_message() {
    let d = Diagnostic::new(Span::Token(4), "duplicate `msg` argument");
    assert_eq!(d.span, Span::Token(4));
    assert_eq!(d.to_string(), "duplicate `msg` argument");
    assert_eq!(Diagnostic::new(Span::Annotation, "").to_string(), "");
}
