//! Tokens of source text, one value for each token tree at the top level.

use proc_macro2::{Spacing, TokenStream, TokenTree};
use vstd::prelude::*;

verus! {

/// What sort of token tree a token is.
#[derive(Clone, Copy, Debug, PartialEq, Eq, Structural)]
pub enum TokenKind {
    Ident,
    Punct,
    Literal,
    Group,
}

/// One token tree: its sort, its text, and whether it is a punctuation
/// character that the next one follows without a gap.
#[derive(Debug)]
pub struct Token {
    pub kind: TokenKind,
    pub joint: bool,
    pub text: String,
}

/// What a `Token` holds, as mathematical values.
pub struct TokenView {
    pub kind: TokenKind,
    pub joint: bool,
    pub text: Seq<char>,
}

impl View for Token {
    type V = TokenView;

    open spec fn view(&self) -> TokenView {
        TokenView { kind: self.kind, joint: self.joint, text: self.text@ }
    }
}

/// The views of a run of tokens.
pub open spec fn views(tokens: Seq<Token>) -> Seq<TokenView> {
    tokens.map_values(|t: Token| t@)
}

/// What `proc_macro2` lexes a text into: for each token tree at the top level
/// its sort, its spacing and its printed text, or the lexer's complaint.
pub uninterp spec fn lexed(src: Seq<char>) -> Result<Seq<TokenView>, Seq<char>>;

/// Calls `FromStr` for `proc_macro2::TokenStream`, walks the stream, and
/// keeps of each token tree its variant, its `Spacing` where it is a `Punct`,
/// and what `to_string` prints for it; of a `LexError`, what `to_string`
/// prints. The contract names the outcome `lexed`, and claims nothing of it
/// but that it depends on the text alone.
#[verifier::external_body]
pub(crate) fn lex(src: &str) -> (r: Result<Vec<Token>, String>)
    ensures
        lexed(src@) == (match r {
            Ok(tokens) => Ok::<Seq<TokenView>, Seq<char>>(views(tokens@)),
            Err(message) => Err::<Seq<TokenView>, Seq<char>>(message@),
        }),
{
    match src.parse::<TokenStream>() {
        Err(e) => Err(e.to_string()),
        Ok(stream) => Ok(stream.into_iter().map(|tree| {
            let (kind, joint) = match &tree {
                TokenTree::Ident(_) => (TokenKind::Ident, false),
                TokenTree::Literal(_) => (TokenKind::Literal, false),
                TokenTree::Group(_) => (TokenKind::Group, false),
                TokenTree::Punct(p) => (TokenKind::Punct, matches!(p.spacing(), Spacing::Joint)),
            };
            Token { kind, joint, text: tree.to_string() }
        }).collect()),
    }
}

/// Whether two texts are the same, character for character.
pub fn same_text(a: &str, b: &str) -> (r: bool)
    ensures
        r == (a@ == b@),
{
    String::from_str(a) == String::from_str(b)
}

/// Whether a token is the punctuation that `mark` spells.
pub open spec fn is_punct(token: TokenView, mark: Seq<char>) -> bool {
    token.kind == TokenKind::Punct && token.text == mark
}

/// Whether a token is the punctuation that `mark` spells.
pub fn is_mark(token: &Token, mark: &str) -> (r: bool)
    ensures
        r == is_punct(token@, mark@),
{
    token.kind == TokenKind::Punct && same_text(token.text.as_str(), mark)
}

/// What stands before the last token of a run: a blank, or nothing where no
/// token comes before it or the one before it is joint to it.
pub open spec fn gap(tokens: Seq<TokenView>) -> Seq<char> {
    if tokens.len() >= 2 && !tokens[tokens.len() - 2].joint {
        seq![' ']
    } else {
        Seq::empty()
    }
}

/// The text of a run of tokens: their texts in order, a blank between two
/// neighbours unless the first is joint to the second.
pub open spec fn rendered(tokens: Seq<TokenView>) -> Seq<char>
    decreases tokens.len(),
{
    if tokens.len() == 0 {
        Seq::empty()
    } else {
        rendered(tokens.drop_last()) + gap(tokens) + tokens.last().text
    }
}

/// Writes out the tokens from index `from` up to, not including, `to`.
pub(crate) fn render_range(tokens: &Vec<Token>, from: usize, to: usize) -> (out: String)
    requires
        from <= to <= tokens.len(),
    ensures
        out@ == rendered(views(tokens@).subrange(from as int, to as int)),
{
    let mut out = String::new();
    let mut i: usize = from;
    while i < to
        invariant
            from <= i <= to <= tokens.len(),
            out@ == rendered(views(tokens@).subrange(from as int, i as int)),
        decreases to - i,
    {
        let ghost run = views(tokens@).subrange(from as int, i + 1);
        assert(run.drop_last() == views(tokens@).subrange(from as int, i as int));
        assert(run.last() == tokens[i as int]@);
        if i > from && !tokens[i - 1].joint {
            out.append(" ");
            assert(run[run.len() - 2] == tokens[i - 1]@);
        }
        proof {
            reveal_strlit(" ");
            assert(" "@ == seq![' ']);
        }
        out.append(tokens[i].text.as_str());
        i = i + 1;
    }
    out
}

/// Writes out all the tokens.
pub fn render(tokens: &Vec<Token>) -> (out: String)
    ensures
        out@ == rendered(views(tokens@)),
{
    assert(views(tokens@).subrange(0, tokens.len() as int) == views(tokens@));
    render_range(tokens, 0, tokens.len())
}

} // verus!
