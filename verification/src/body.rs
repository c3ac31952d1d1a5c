//! The body of a method, brought into one form.

use vstd::prelude::*;
use crate::diag::{diagnostic, Diagnostic, DiagnosticView, Span};
use crate::syntax::{block_complaint, expr_complaint, not_a_block, not_an_expr};

verus! {

/// What every message about a body that cannot be used begins with.
pub const EXPECTED_BODY: &'static str = "expected block or expression: ";

/// A body in its one form: a block.
#[derive(Debug)]
pub struct NormalizedBody {
    pub block: String,
}

impl View for NormalizedBody {
    type V = Seq<char>;

    open spec fn view(&self) -> Seq<char> {
        self.block@
    }
}

impl NormalizedBody {
    /// The text is a block.
    pub open spec fn wf(&self) -> bool {
        not_a_block(self.block@) is None
    }
}

/// An expression with braces put round it. Each brace has a line of its own,
/// so that a comment at the end of the expression does not swallow the second.
pub open spec fn braced(expr: Seq<char>) -> Seq<char> {
    "{\n"@ + expr + "\n}"@
}

/// The block that a body's text stands for. A block stands for itself. An
/// expression stands for the block that holds it alone. Anything else is a
/// fault of the input, and so is an expression that is no block even between
/// braces.
pub open spec fn normalized(src: Seq<char>) -> Result<Seq<char>, DiagnosticView> {
    match not_a_block(src) {
        None => Ok(src),
        Some(_) => match not_an_expr(src) {
            Some(why) => Err(diagnostic(Span::Input, EXPECTED_BODY@ + why)),
            None => match not_a_block(braced(src)) {
                None => Ok(braced(src)),
                Some(why) => Err(diagnostic(Span::Input, EXPECTED_BODY@ + why)),
            },
        },
    }
}

fn refuse(why: String) -> (d: Diagnostic)
    ensures
        d@ == diagnostic(Span::Input, EXPECTED_BODY@ + why@),
{
    let mut message = String::from_str(EXPECTED_BODY);
    message.append(why.as_str());
    Diagnostic { span: Span::Input, message }
}

/// Puts braces round an expression.
pub fn brace(expr: &str) -> (out: String)
    ensures
        out@ == braced(expr@),
{
    let mut out = String::from_str("{\n");
    out.append(expr);
    out.append("\n}");
    out
}

/// Brings a body into its one form: a block is kept as it is, an expression
/// is put between braces.
pub fn parse_block_or_expr(input: &str) -> (r: Result<NormalizedBody, Diagnostic>)
    ensures
        normalized(input@) == (match r {
            Ok(body) => Ok::<Seq<char>, DiagnosticView>(body@),
            Err(d) => Err::<Seq<char>, DiagnosticView>(d@),
        }),
        match r {
            Ok(body) => body.wf(),
            Err(_) => true,
        },
{
    match block_complaint(input) {
        None => Ok(NormalizedBody { block: String::from_str(input) }),
        Some(_) => match expr_complaint(input) {
            Some(why) => Err(refuse(why)),
            None => {
                let block = brace(input);
                match block_complaint(block.as_str()) {
                    None => Ok(NormalizedBody { block }),
                    Some(why) => Err(refuse(why)),
                }
            },
        },
    }
}

/// A body in its one form stays as it is when it is brought into that form
/// again: a block is never put between braces a second time.
pub proof fn lemma_normalized_is_idempotent(src: Seq<char>)
    ensures
        match normalized(src) {
            Ok(block) => normalized(block) == Ok::<Seq<char>, DiagnosticView>(block),
            Err(_) => true,
        },
{
}

/// A text that is a block is its own one form.
pub proof fn lemma_block_is_kept(src: Seq<char>)
    requires
        not_a_block(src) is None,
    ensures
        normalized(src) == Ok::<Seq<char>, DiagnosticView>(src),
{
}

/// An expression that is no block becomes the block that holds it alone,
/// wherever that is a block.
pub proof fn lemma_expression_is_braced(src: Seq<char>)
    requires
        not_a_block(src) is Some,
        not_an_expr(src) is None,
        not_a_block(braced(src)) is None,
    ensures
        normalized(src) == Ok::<Seq<char>, DiagnosticView>(braced(src)),
{
}

} // verus!
