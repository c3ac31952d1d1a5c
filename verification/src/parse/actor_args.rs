//! Reads the annotation's arguments: `key = type` items with commas between.

use vstd::prelude::*;
use crate::ast::args::{no_args, ActorArgsRaw, ActorArgsRawView};
use crate::diag::{diagnostic, Diagnostic, DiagnosticView, Span};
use crate::kw::{key_name, key_named, keyword, name, ItemKey};
use crate::syntax::{not_a_type, type_complaint};
use crate::token::{
    is_mark, is_punct, lex, lexed, render_range, rendered, views, Token, TokenKind, TokenView,
};

verus! {

/// The message for a token that should be a key and is not.
pub const EXPECTED_KEY: &'static str = "expected one of: `msg`, `state`, `args`";

/// The message for a token that should be the `=` after a key and is not.
pub const EXPECTED_EQ: &'static str = "expected `=`";

/// The message for an annotation that ends after a key.
pub const END_BEFORE_EQ: &'static str = "unexpected end of input, expected `=`";

/// One `key = type` pair, with the place of its key.
#[derive(Debug)]
pub struct Item {
    pub key: ItemKey,
    pub key_span: Span,
    pub val: String,
}

/// What an `Item` holds, as mathematical values.
pub struct ItemView {
    pub key: ItemKey,
    pub key_span: Span,
    pub val: Seq<char>,
}

impl View for Item {
    type V = ItemView;

    open spec fn view(&self) -> ItemView {
        ItemView { key: self.key, key_span: self.key_span, val: self.val@ }
    }
}

/// The views of a run of items.
pub open spec fn item_views(items: Seq<Item>) -> Seq<ItemView> {
    items.map_values(|item: Item| item@)
}

/// The key that a token is, if it is an identifier that spells one.
pub open spec fn key_at(token: TokenView) -> Option<ItemKey> {
    if token.kind == TokenKind::Ident {
        key_named(token.text)
    } else {
        None
    }
}

/// The text of the tokens from `start` up to, not including, `end`.
pub open spec fn value_text(tokens: Seq<TokenView>, start: int, end: int) -> Seq<char> {
    rendered(tokens.subrange(start, end))
}

/// Whether the value that begins at `start` may end before index `end`: a
/// comma or nothing follows there, and the tokens up to there are a type.
pub open spec fn ends_value(tokens: Seq<TokenView>, start: int, end: int) -> bool {
    &&& start <= end <= tokens.len()
    &&& end == tokens.len() || is_punct(tokens[end], ","@)
    &&& not_a_type(value_text(tokens, start, end)) is None
}

/// The first index from `from` on before which the value that begins at
/// `start` may end.
pub open spec fn value_end_from(tokens: Seq<TokenView>, start: int, from: int) -> Option<int>
    decreases tokens.len() - from,
{
    if ends_value(tokens, start, from) {
        Some(from)
    } else if from < tokens.len() {
        value_end_from(tokens, start, from + 1)
    } else {
        None
    }
}

/// Where the value that begins at `start` ends: before the first comma, or
/// at the end of the tokens, up to which the tokens are a type. A comma inside
/// a type is passed over, as the tokens up to it are no type.
pub open spec fn value_end(tokens: Seq<TokenView>, start: int) -> Option<int> {
    value_end_from(tokens, start, start)
}

/// The place of a value that is no type: its first token, or the annotation
/// where no token is left.
pub open spec fn value_span(tokens: Seq<TokenView>, start: int) -> Span {
    if start < tokens.len() {
        Span::Token(start as usize)
    } else {
        Span::Annotation
    }
}

/// The item that begins at `pos`, with the index at which the next one
/// begins: a key, `=`, a type, and a comma unless the tokens end.
pub open spec fn item_at(tokens: Seq<TokenView>, pos: int) -> Result<(ItemView, int), DiagnosticView>
    recommends
        0 <= pos < tokens.len(),
{
    match key_at(tokens[pos]) {
        None => Err(diagnostic(Span::Token(pos as usize), EXPECTED_KEY@)),
        Some(key) => if pos + 1 >= tokens.len() {
            Err(diagnostic(Span::Annotation, END_BEFORE_EQ@))
        } else if !is_punct(tokens[pos + 1], "="@) {
            Err(diagnostic(Span::Token((pos + 1) as usize), EXPECTED_EQ@))
        } else {
            match value_end(tokens, pos + 2) {
                None => Err(
                    diagnostic(
                        value_span(tokens, pos + 2),
                        not_a_type(value_text(tokens, pos + 2, tokens.len() as int)).unwrap(),
                    ),
                ),
                Some(end) => Ok(
                    (
                        ItemView {
                            key,
                            key_span: Span::Token(pos as usize),
                            val: value_text(tokens, pos + 2, end),
                        },
                        if end < tokens.len() {
                            end + 1
                        } else {
                            end
                        },
                    ),
                ),
            }
        },
    }
}

/// A result with `front` put before the items of its success.
pub open spec fn after(front: Seq<ItemView>, rest: Result<Seq<ItemView>, DiagnosticView>) -> Result<
    Seq<ItemView>,
    DiagnosticView,
> {
    match rest {
        Ok(items) => Ok(front + items),
        Err(d) => Err(d),
    }
}

/// The items that the tokens from `pos` on spell, in order, or the first
/// fault among them.
pub open spec fn items_from(tokens: Seq<TokenView>, pos: int) -> Result<Seq<ItemView>, DiagnosticView>
    decreases tokens.len() - pos,
{
    if pos < 0 || pos >= tokens.len() {
        Ok(Seq::empty())
    } else {
        match item_at(tokens, pos) {
            Err(d) => Err(d),
            Ok((item, next)) => {
                proof {
                    lemma_value_end_bounds(tokens, pos + 2, pos + 2);
                }
                after(seq![item], items_from(tokens, next))
            },
        }
    }
}

/// A value ends between the place from which its end is sought and the end
/// of the tokens, and the tokens up to its end are a type.
pub proof fn lemma_value_end_bounds(tokens: Seq<TokenView>, start: int, from: int)
    ensures
        match value_end_from(tokens, start, from) {
            Some(end) => from <= end && ends_value(tokens, start, end),
            None => true,
        },
    decreases tokens.len() - from,
{
    if !ends_value(tokens, start, from) && from < tokens.len() {
        lemma_value_end_bounds(tokens, start, from + 1);
    }
}

/// A value ends at the first place where it may: before its end no index
/// is such a place, and where it has no end, no index from its start on is.
pub proof fn lemma_value_ends_first(tokens: Seq<TokenView>, start: int, k: int)
    requires
        start <= k,
    ensures
        match value_end(tokens, start) {
            Some(end) => ends_value(tokens, start, end) && (k < end ==> !ends_value(
                tokens,
                start,
                k,
            )),
            None => !ends_value(tokens, start, k),
        },
{
    lemma_value_end_bounds(tokens, start, start);
    if ends_value(tokens, start, k) {
        lemma_no_end_is_passed(tokens, start, start, k);
    }
}

/// The search for a value's end stops at or before a place where the value
/// may end.
proof fn lemma_no_end_is_passed(tokens: Seq<TokenView>, start: int, from: int, k: int)
    requires
        from <= k,
        ends_value(tokens, start, k),
    ensures
        match value_end_from(tokens, start, from) {
            Some(end) => end <= k,
            None => false,
        },
    decreases tokens.len() - from,
{
    if !ends_value(tokens, start, from) {
        lemma_no_end_is_passed(tokens, start, from + 1, k);
    }
}

/// Every item that is read holds a type: what stands for its value is a
/// text that `syn` reads as a type.
pub proof fn lemma_items_hold_types(tokens: Seq<TokenView>, pos: int)
    ensures
        match items_from(tokens, pos) {
            Ok(items) => forall|i: int|
                0 <= i < items.len() ==> not_a_type(#[trigger] items[i].val) is None,
            Err(_) => true,
        },
    decreases tokens.len() - pos,
{
    if 0 <= pos < tokens.len() {
        match item_at(tokens, pos) {
            Err(_) => {},
            Ok((item, next)) => {
                lemma_value_end_bounds(tokens, pos + 2, pos + 2);
                lemma_items_hold_types(tokens, next);
                match items_from(tokens, next) {
                    Ok(rest) => {
                        let items = seq![item] + rest;
                        assert forall|i: int| 0 <= i < items.len() implies not_a_type(
                            #[trigger] items[i].val,
                        ) is None by {
                            if i > 0 {
                                assert(items[i] == rest[i - 1]);
                            }
                        }
                    },
                    Err(_) => {},
                }
            },
        }
    }
}

/// Finds where the value that begins at `start` ends, and writes the value
/// out.
fn find_value_end(tokens: &Vec<Token>, start: usize) -> (r: Result<(usize, String), String>)
    requires
        start <= tokens.len(),
    ensures
        match r {
            Ok((end, text)) => {
                &&& value_end(views(tokens@), start as int) == Some(end as int)
                &&& start <= end <= tokens.len()
                &&& text@ == value_text(views(tokens@), start as int, end as int)
            },
            Err(message) => {
                &&& value_end(views(tokens@), start as int) is None
                &&& not_a_type(value_text(views(tokens@), start as int, tokens.len() as int))
                    == Some(message@)
            },
        },
{
    let mut j: usize = start;
    loop
        invariant
            start <= j <= tokens.len(),
            value_end(views(tokens@), start as int) == value_end_from(
                views(tokens@),
                start as int,
                j as int,
            ),
        decreases tokens.len() - j,
    {
        if j == tokens.len() || is_mark(&tokens[j], ",") {
            let text = render_range(tokens, start, j);
            match type_complaint(text.as_str()) {
                None => {
                    return Ok((j, text));
                },
                Some(message) => {
                    if j == tokens.len() {
                        return Err(message);
                    }
                },
            }
        }
        j = j + 1;
    }
}

/// Reads the item that begins at `pos`, and says where the next one begins.
fn parse_item(tokens: &Vec<Token>, pos: usize) -> (r: Result<(Item, usize), Diagnostic>)
    requires
        pos < tokens.len(),
    ensures
        item_at(views(tokens@), pos as int) == (match r {
            Ok((item, next)) => Ok::<(ItemView, int), DiagnosticView>((item@, next as int)),
            Err(d) => Err::<(ItemView, int), DiagnosticView>(d@),
        }),
        match r {
            Ok((_, next)) => pos < next <= tokens.len(),
            Err(_) => true,
        },
{
    let key = if tokens[pos].kind == TokenKind::Ident {
        keyword(tokens[pos].text.as_str())
    } else {
        None
    };
    match key {
        None => Err(Diagnostic::new(Span::Token(pos), EXPECTED_KEY)),
        Some(key) => {
            if pos + 1 >= tokens.len() {
                Err(Diagnostic::new(Span::Annotation, END_BEFORE_EQ))
            } else if !is_mark(&tokens[pos + 1], "=") {
                Err(Diagnostic::new(Span::Token(pos + 1), EXPECTED_EQ))
            } else {
                match find_value_end(tokens, pos + 2) {
                    Err(message) => {
                        let span = if pos + 2 < tokens.len() {
                            Span::Token(pos + 2)
                        } else {
                            Span::Annotation
                        };
                        Err(Diagnostic { span, message })
                    },
                    Ok((end, val)) => {
                        let next = if end < tokens.len() {
                            end + 1
                        } else {
                            end
                        };
                        Ok((Item { key, key_span: Span::Token(pos), val }, next))
                    },
                }
            }
        },
    }
}

/// Reads all the items that the tokens spell. A comma may follow the last.
pub fn parse_items(tokens: &Vec<Token>) -> (r: Result<Vec<Item>, Diagnostic>)
    ensures
        items_from(views(tokens@), 0) == (match r {
            Ok(items) => Ok::<Seq<ItemView>, DiagnosticView>(item_views(items@)),
            Err(d) => Err::<Seq<ItemView>, DiagnosticView>(d@),
        }),
{
    let mut items: Vec<Item> = Vec::new();
    let mut pos: usize = 0;
    assert(item_views(items@) + Seq::<ItemView>::empty() == item_views(items@));
    while pos < tokens.len()
        invariant
            pos <= tokens.len(),
            items_from(views(tokens@), 0) == after(
                item_views(items@),
                items_from(views(tokens@), pos as int),
            ),
        decreases tokens.len() - pos,
    {
        let ghost front = item_views(items@);
        match parse_item(tokens, pos) {
            Err(d) => {
                return Err(d);
            },
            Ok((item, next)) => {
                proof {
                    let rest = items_from(views(tokens@), next as int);
                    match rest {
                        Ok(more) => {
                            assert(front.push(item@) + more == front + (seq![item@] + more));
                        },
                        Err(_) => {},
                    }
                }
                items.push(item);
                assert(item_views(items@) == front.push(item@));
                pos = next;
            },
        }
    }
    assert(item_views(items@) + Seq::<ItemView>::empty() == item_views(items@));
    Ok(items)
}

/// What the arguments hold for a key.
pub open spec fn slot(raw: ActorArgsRawView, key: ItemKey) -> Option<Seq<char>> {
    match key {
        ItemKey::Msg => raw.msg,
        ItemKey::State => raw.state,
        ItemKey::Args => raw.args,
    }
}

/// The arguments with the type for one key set.
pub open spec fn with_slot(raw: ActorArgsRawView, key: ItemKey, val: Seq<char>) -> ActorArgsRawView {
    match key {
        ItemKey::Msg => ActorArgsRawView { msg: Some(val), ..raw },
        ItemKey::State => ActorArgsRawView { state: Some(val), ..raw },
        ItemKey::Args => ActorArgsRawView { args: Some(val), ..raw },
    }
}

/// The message for a key that is given a second time.
pub open spec fn duplicate_text(key: ItemKey) -> Seq<char> {
    "duplicate `"@ + key_name(key) + "` argument"@
}

/// The arguments after one more item: its type is set, unless its key was
/// given before, which is a fault at the place of the second key.
pub open spec fn stored(raw: ActorArgsRawView, item: ItemView) -> Result<
    ActorArgsRawView,
    DiagnosticView,
> {
    match slot(raw, item.key) {
        Some(_) => Err(diagnostic(item.key_span, duplicate_text(item.key))),
        None => Ok(with_slot(raw, item.key, item.val)),
    }
}

/// The arguments that the items give, taken one after the other from
/// nothing; the first fault ends it.
pub open spec fn collected(span: Span, items: Seq<ItemView>) -> Result<
    ActorArgsRawView,
    DiagnosticView,
>
    decreases items.len(),
{
    if items.len() == 0 {
        Ok(no_args(span))
    } else {
        match collected(span, items.drop_last()) {
            Ok(raw) => stored(raw, items.last()),
            Err(d) => Err(d),
        }
    }
}

/// The arguments that an annotation's text gives: its tokens are read as
/// items, and the items are collected. A text that does not lex is a fault
/// of the annotation.
pub open spec fn parsed_args(span: Span, src: Seq<char>) -> Result<ActorArgsRawView, DiagnosticView> {
    match lexed(src) {
        Err(message) => Err(diagnostic(Span::Annotation, message)),
        Ok(tokens) => match items_from(tokens, 0) {
            Err(d) => Err(d),
            Ok(items) => collected(span, items),
        },
    }
}

/// Writes the message for a key that is given a second time.
pub fn duplicate_message(key: ItemKey) -> (message: String)
    ensures
        message@ == duplicate_text(key),
{
    let mut message = String::from_str("duplicate `");
    message.append(name(key));
    message.append("` argument");
    message
}

/// Takes one more item into the arguments. A key that was given before is
/// refused: the first type stays, and the fault lies at the second key.
pub fn store(raw: ActorArgsRaw, item: Item) -> (r: Result<ActorArgsRaw, Diagnostic>)
    ensures
        stored(raw@, item@) == (match r {
            Ok(next) => Ok::<ActorArgsRawView, DiagnosticView>(next@),
            Err(d) => Err::<ActorArgsRawView, DiagnosticView>(d@),
        }),
{
    let mut raw = raw;
    let Item { key, key_span, val } = item;
    let taken = match key {
        ItemKey::Msg => raw.msg.is_some(),
        ItemKey::State => raw.state.is_some(),
        ItemKey::Args => raw.args.is_some(),
    };
    if taken {
        Err(Diagnostic { span: key_span, message: duplicate_message(key) })
    } else {
        match key {
            ItemKey::Msg => {
                raw.msg = Some(val);
            },
            ItemKey::State => {
                raw.state = Some(val);
            },
            ItemKey::Args => {
                raw.args = Some(val);
            },
        }
        Ok(raw)
    }
}

/// Collects the items into arguments, in their order.
pub fn collect_items(attr_span: Span, items: &Vec<Item>) -> (r: Result<ActorArgsRaw, Diagnostic>)
    ensures
        collected(attr_span, item_views(items@)) == (match r {
            Ok(raw) => Ok::<ActorArgsRawView, DiagnosticView>(raw@),
            Err(d) => Err::<ActorArgsRawView, DiagnosticView>(d@),
        }),
{
    let mut raw = ActorArgsRaw::new(attr_span);
    let mut i: usize = 0;
    assert(item_views(items@).subrange(0, 0).len() == 0);
    while i < items.len()
        invariant
            i <= items.len(),
            collected(attr_span, item_views(items@).subrange(0, i as int)) == Ok::<
                ActorArgsRawView,
                DiagnosticView,
            >(raw@),
        decreases items.len() - i,
    {
        let ghost before = item_views(items@).subrange(0, i as int);
        let ghost upto = item_views(items@).subrange(0, i + 1);
        assert(upto.drop_last() == before);
        assert(upto.last() == items[i as int]@);
        let item = Item {
            key: items[i].key,
            key_span: items[i].key_span,
            val: items[i].val.clone(),
        };
        match store(raw, item) {
            Err(d) => {
                proof {
                    lemma_fault_stays(attr_span, item_views(items@), i + 1);
                }
                return Err(d);
            },
            Ok(next) => {
                raw = next;
            },
        }
        i = i + 1;
    }
    assert(item_views(items@).subrange(0, items.len() as int) == item_views(items@));
    Ok(raw)
}

/// A fault among the first items is the fault of the whole run.
pub proof fn lemma_fault_stays(span: Span, items: Seq<ItemView>, n: int)
    requires
        0 <= n <= items.len(),
        collected(span, items.subrange(0, n)) is Err,
    ensures
        collected(span, items) == collected(span, items.subrange(0, n)),
    decreases items.len() - n,
{
    if n < items.len() {
        let longer = items.subrange(0, n + 1);
        assert(longer.drop_last() == items.subrange(0, n));
        lemma_fault_stays(span, items, n + 1);
    } else {
        assert(items.subrange(0, n) == items);
    }
}

/// Reads the arguments of an annotation from its text.
pub fn parse_actor_args(attr_span: Span, src: &str) -> (r: Result<ActorArgsRaw, Diagnostic>)
    ensures
        parsed_args(attr_span, src@) == (match r {
            Ok(raw) => Ok::<ActorArgsRawView, DiagnosticView>(raw@),
            Err(d) => Err::<ActorArgsRawView, DiagnosticView>(d@),
        }),
{
    match lex(src) {
        Err(message) => Err(Diagnostic { span: Span::Annotation, message }),
        Ok(tokens) => match parse_items(&tokens) {
            Err(d) => Err(d),
            Ok(items) => collect_items(attr_span, &items),
        },
    }
}

/// Whether the key of the item at `j` was given by an item before it.
pub open spec fn repeats(items: Seq<ItemView>, j: int) -> bool {
    exists|i: int| 0 <= i < j && #[trigger] items[i].key == items[j].key
}

/// Whether some item gives `val` for `key`.
pub open spec fn gives(items: Seq<ItemView>, key: ItemKey, val: Seq<char>) -> bool {
    exists|i: int| 0 <= i < items.len() && #[trigger] items[i].key == key && items[i].val == val
}

/// Whether some item has the key.
pub open spec fn has_key(items: Seq<ItemView>, key: ItemKey) -> bool {
    exists|i: int| 0 <= i < items.len() && #[trigger] items[i].key == key
}

/// A repeated key is refused, and nothing else is. Items whose keys all
/// differ are collected: each key holds the type that its item gives, and a
/// key without an item holds none. Where a key is repeated, the fault is that
/// of the first item whose key was given before, at the place of its key.
pub proof fn lemma_collected(span: Span, items: Seq<ItemView>)
    ensures
        match collected(span, items) {
            Ok(raw) => {
                &&& raw.span == span
                &&& forall|j: int| 0 <= j < items.len() ==> !repeats(items, j)
                &&& forall|key: ItemKey, val: Seq<char>|
                    slot(raw, key) == Some(val) <==> gives(items, key, val)
                &&& forall|key: ItemKey| slot(raw, key) is None <==> !has_key(items, key)
            },
            Err(d) => exists|j: int|
                {
                    &&& 0 <= j < items.len()
                    &&& #[trigger] repeats(items, j)
                    &&& forall|k: int| 0 <= k < j ==> !repeats(items, k)
                    &&& d == diagnostic(items[j].key_span, duplicate_text(items[j].key))
                },
        },
    decreases items.len(),
{
    if items.len() == 0 {
        let raw = no_args(span);
        assert forall|key: ItemKey| slot(raw, key) is None by {}
    } else {
        let front = items.drop_last();
        let last = items.last();
        let n = items.len() - 1;
        lemma_collected(span, front);
        assert forall|k: int| 0 <= k < n implies repeats(items, k) == repeats(front, k) by {
            if repeats(front, k) {
                let i = choose|i: int| 0 <= i < k && #[trigger] front[i].key == front[k].key;
                assert(items[i].key == items[k].key);
            }
            if repeats(items, k) {
                let i = choose|i: int| 0 <= i < k && #[trigger] items[i].key == items[k].key;
                assert(front[i].key == front[k].key);
            }
        }
        match collected(span, front) {
            Err(d) => {
                let j = choose|j: int|
                    {
                        &&& 0 <= j < front.len()
                        &&& #[trigger] repeats(front, j)
                        &&& forall|k: int| 0 <= k < j ==> !repeats(front, k)
                        &&& d == diagnostic(front[j].key_span, duplicate_text(front[j].key))
                    };
                assert(repeats(items, j));
                assert(forall|k: int| 0 <= k < j ==> !repeats(items, k));
            },
            Ok(raw) => {
                match slot(raw, last.key) {
                    Some(val) => {
                        assert(gives(front, last.key, val));
                        let i = choose|i: int|
                            0 <= i < front.len() && #[trigger] front[i].key == last.key
                                && front[i].val == val;
                        assert(items[i].key == items[n].key);
                        assert(repeats(items, n));
                    },
                    None => {
                        let next = with_slot(raw, last.key, last.val);
                        assert(!has_key(front, last.key));
                        assert(!repeats(items, n)) by {
                            if repeats(items, n) {
                                let i = choose|i: int|
                                    0 <= i < n && #[trigger] items[i].key == items[n].key;
                                assert(front[i].key == last.key);
                            }
                        }
                        assert forall|key: ItemKey, val: Seq<char>|
                            slot(next, key) == Some(val) <==> gives(items, key, val) by {
                            if gives(items, key, val) {
                                let i = choose|i: int|
                                    0 <= i < items.len() && #[trigger] items[i].key == key
                                        && items[i].val == val;
                                if i < n {
                                    assert(front[i].key == key && front[i].val == val);
                                    assert(gives(front, key, val));
                                }
                            }
                            if slot(next, key) == Some(val) {
                                if key == last.key {
                                    assert(items[n].key == key && items[n].val == val);
                                } else {
                                    assert(gives(front, key, val));
                                    let i = choose|i: int|
                                        0 <= i < front.len() && #[trigger] front[i].key == key
                                            && front[i].val == val;
                                    assert(items[i].key == key && items[i].val == val);
                                }
                            }
                        }
                        assert forall|key: ItemKey|
                            slot(next, key) is None <==> !has_key(items, key) by {
                            if has_key(items, key) {
                                let i = choose|i: int|
                                    0 <= i < items.len() && #[trigger] items[i].key == key;
                                if i < n {
                                    assert(front[i].key == key);
                                    assert(has_key(front, key));
                                }
                            }
                            if has_key(front, key) {
                                let i = choose|i: int|
                                    0 <= i < front.len() && #[trigger] front[i].key == key;
                                assert(items[i].key == key);
                            }
                            if key == last.key {
                                assert(items[n].key == key);
                            }
                        }
                    },
                }
            },
        }
    }
}

/// A key that is given twice is refused, whatever the two types are and
/// whatever stands between and around the two items.
pub proof fn lemma_duplicate_key_is_refused(span: Span, items: Seq<ItemView>, i: int, j: int)
    requires
        0 <= i < j < items.len(),
        items[i].key == items[j].key,
    ensures
        collected(span, items) is Err,
{
    lemma_collected(span, items);
    assert(repeats(items, j));
}

/// Items whose keys all differ are accepted.
pub proof fn lemma_distinct_keys_are_accepted(span: Span, items: Seq<ItemView>)
    requires
        forall|i: int, j: int| 0 <= i < j < items.len() ==> items[i].key != items[j].key,
    ensures
        collected(span, items) is Ok,
{
    lemma_collected(span, items);
    if collected(span, items) is Err {
        let j = choose|j: int| 0 <= j < items.len() && #[trigger] repeats(items, j);
        let i = choose|i: int| 0 <= i < j && #[trigger] items[i].key == items[j].key;
        assert(items[i].key != items[j].key);
    }
}

/// Whether `b` holds the items of `a` in another order: `to` says for each
/// place in `b` where its item stands in `a`, and `back` says the reverse.
/// Only keys and types count; the places of the keys differ with the order.
pub open spec fn rearranged(a: Seq<ItemView>, b: Seq<ItemView>, to: Seq<int>, back: Seq<int>) -> bool {
    &&& a.len() == b.len() == to.len() == back.len()
    &&& forall|i: int|
        0 <= i < b.len() ==> {
            &&& 0 <= #[trigger] to[i] < a.len()
            &&& back[to[i]] == i
            &&& b[i].key == a[to[i]].key
            &&& b[i].val == a[to[i]].val
        }
    &&& forall|i: int| 0 <= i < a.len() ==> 0 <= #[trigger] back[i] < b.len() && to[back[i]] == i
}

/// The order of the items is irrelevant: items in another order give the
/// same arguments, and a repeated key is refused in every order.
pub proof fn lemma_key_order_is_irrelevant(
    span: Span,
    a: Seq<ItemView>,
    b: Seq<ItemView>,
    to: Seq<int>,
    back: Seq<int>,
)
    requires
        rearranged(a, b, to, back),
    ensures
        collected(span, a) is Ok <==> collected(span, b) is Ok,
        collected(span, a) is Ok ==> collected(span, b) == collected(span, a),
{
    lemma_collected(span, a);
    lemma_collected(span, b);
    if collected(span, a) is Ok && collected(span, b) is Err {
        let j = choose|j: int| 0 <= j < b.len() && #[trigger] repeats(b, j);
        let i = choose|i: int| 0 <= i < j && #[trigger] b[i].key == b[j].key;
        lemma_repeat_is_carried(b, a, to, i, j);
    }
    if collected(span, b) is Ok && collected(span, a) is Err {
        let j = choose|j: int| 0 <= j < a.len() && #[trigger] repeats(a, j);
        let i = choose|i: int| 0 <= i < j && #[trigger] a[i].key == a[j].key;
        lemma_repeat_is_carried(a, b, back, i, j);
    }
    if collected(span, a) is Ok && collected(span, b) is Ok {
        let x = collected(span, a)->Ok_0;
        let y = collected(span, b)->Ok_0;
        assert forall|key: ItemKey| slot(x, key) == slot(y, key) by {
            match slot(x, key) {
                Some(val) => {
                    assert(gives(a, key, val));
                    let i = choose|i: int|
                        0 <= i < a.len() && #[trigger] a[i].key == key && a[i].val == val;
                    assert(to[back[i]] == i);
                    assert(b[back[i]].key == key && b[back[i]].val == val);
                    assert(gives(b, key, val));
                },
                None => {
                    if has_key(b, key) {
                        let i = choose|i: int| 0 <= i < b.len() && #[trigger] b[i].key == key;
                        assert(a[to[i]].key == key);
                        assert(has_key(a, key));
                    }
                },
            }
        }
        assert(slot(x, ItemKey::Msg) == slot(y, ItemKey::Msg));
        assert(slot(x, ItemKey::State) == slot(y, ItemKey::State));
        assert(slot(x, ItemKey::Args) == slot(y, ItemKey::Args));
    }
}

/// Two items of one key in `a` stand in `b` as two items of that key.
proof fn lemma_repeat_is_carried(a: Seq<ItemView>, b: Seq<ItemView>, place: Seq<int>, i: int, j: int)
    requires
        a.len() == b.len() == place.len(),
        0 <= i < j < a.len(),
        a[i].key == a[j].key,
        forall|k: int| 0 <= k < a.len() ==> 0 <= #[trigger] place[k] < b.len(),
        forall|k: int| 0 <= k < a.len() ==> b[#[trigger] place[k]].key == a[k].key,
        forall|k: int, l: int|
            0 <= k < a.len() && 0 <= l < a.len() && k != l ==> #[trigger] place[k]
                != #[trigger] place[l],
    ensures
        exists|n: int| 0 <= n < b.len() && #[trigger] repeats(b, n),
{
    let p = place[i];
    let q = place[j];
    assert(b[p].key == a[i].key);
    assert(b[q].key == a[j].key);
    if p < q {
        assert(b[p].key == b[q].key);
        assert(repeats(b, q));
    } else {
        assert(b[q].key == b[p].key);
        assert(repeats(b, p));
    }
}

} // verus!
