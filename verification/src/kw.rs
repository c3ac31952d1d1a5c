//! The three keys of the annotation.

use vstd::prelude::*;
use crate::token::same_text;

verus! {

/// A key of the annotation: which of the actor's three types an item sets.
#[derive(Clone, Copy, Debug, PartialEq, Eq, Structural)]
pub enum ItemKey {
    Msg,
    State,
    Args,
}

/// How a key is spelled.
pub open spec fn key_name(key: ItemKey) -> Seq<char> {
    match key {
        ItemKey::Msg => "msg"@,
        ItemKey::State => "state"@,
        ItemKey::Args => "args"@,
    }
}

/// The key that a word spells, if it spells one.
pub open spec fn key_named(word: Seq<char>) -> Option<ItemKey> {
    if word == key_name(ItemKey::Msg) {
        Some(ItemKey::Msg)
    } else if word == key_name(ItemKey::State) {
        Some(ItemKey::State)
    } else if word == key_name(ItemKey::Args) {
        Some(ItemKey::Args)
    } else {
        None
    }
}

/// How a key is spelled.
pub fn name(key: ItemKey) -> (word: &'static str)
    ensures
        word@ == key_name(key),
{
    match key {
        ItemKey::Msg => "msg",
        ItemKey::State => "state",
        ItemKey::Args => "args",
    }
}

/// The key that a word spells, if it spells one.
pub fn keyword(word: &str) -> (key: Option<ItemKey>)
    ensures
        key == key_named(word@),
{
    if same_text(word, "msg") {
        Some(ItemKey::Msg)
    } else if same_text(word, "state") {
        Some(ItemKey::State)
    } else if same_text(word, "args") {
        Some(ItemKey::Args)
    } else {
        None
    }
}

/// Each key is spelled in its own way: the spelling gives the key back.
pub proof fn lemma_key_names_differ(key: ItemKey)
    ensures
        key_named(key_name(key)) == Some(key),
{
    reveal_strlit("msg");
    reveal_strlit("state");
    reveal_strlit("args");
    assert("msg"@.len() == 3);
    assert("state"@.len() == 5);
    assert("args"@.len() == 4);
}

} // verus!
