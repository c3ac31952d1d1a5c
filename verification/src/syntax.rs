//! Questions about Rust syntax, answered by `syn`.
//!
//! Each function here hands a text to one of `syn`'s parsers. What the parser
//! answers is not proved: it has a name, and the rest of the crate is proved
//! for whatever that name stands for.

use vstd::prelude::*;

verus! {

/// Why `syn` does not read a text as a type, or `None` where it does.
pub uninterp spec fn not_a_type(src: Seq<char>) -> Option<Seq<char>>;

/// Why `syn` does not read a text as a block, statements between braces, or
/// `None` where it does.
pub uninterp spec fn not_a_block(src: Seq<char>) -> Option<Seq<char>>;

/// Why `syn` does not read a text as an expression, or `None` where it does.
pub uninterp spec fn not_an_expr(src: Seq<char>) -> Option<Seq<char>>;

/// What `syn` finds at the head of a type's declaration, or why it does not
/// read the text as one.
pub uninterp spec fn declared(src: Seq<char>) -> Result<DeclarationHeadView, Seq<char>>;

/// The parts of a declaration that an impl for the type repeats.
#[derive(Debug)]
pub struct DeclarationHead {
    /// The type's name.
    pub name: String,
    /// The generic parameters with their bounds, in angle brackets, as they
    /// follow `impl`; empty where the type has none.
    pub impl_generics: String,
    /// The generic parameters' names, in angle brackets, as they follow the
    /// type's name; empty where the type has none.
    pub ty_generics: String,
    /// The `where` clause; empty where the type has none.
    pub where_clause: String,
}

/// What a `DeclarationHead` holds, as mathematical values.
pub struct DeclarationHeadView {
    pub name: Seq<char>,
    pub impl_generics: Seq<char>,
    pub ty_generics: Seq<char>,
    pub where_clause: Seq<char>,
}

impl View for DeclarationHead {
    type V = DeclarationHeadView;

    open spec fn view(&self) -> DeclarationHeadView {
        DeclarationHeadView {
            name: self.name@,
            impl_generics: self.impl_generics@,
            ty_generics: self.ty_generics@,
            where_clause: self.where_clause@,
        }
    }
}

/// Calls `syn::parse_str` for a `syn::Type` and keeps the error's message.
/// The contract names the answer `not_a_type`.
#[verifier::external_body]
pub(crate) fn type_complaint(src: &str) -> (r: Option<String>)
    ensures
        not_a_type(src@) == (match r {
            Some(message) => Some(message@),
            None => None::<Seq<char>>,
        }),
{
    match syn::parse_str::<syn::Type>(src) {
        Ok(_) => None,
        Err(e) => Some(e.to_string()),
    }
}

/// Calls `syn::parse_str` for a `syn::Block` and keeps the error's message.
/// The contract names the answer `not_a_block`.
#[verifier::external_body]
pub(crate) fn block_complaint(src: &str) -> (r: Option<String>)
    ensures
        not_a_block(src@) == (match r {
            Some(message) => Some(message@),
            None => None::<Seq<char>>,
        }),
{
    match syn::parse_str::<syn::Block>(src) {
        Ok(_) => None,
        Err(e) => Some(e.to_string()),
    }
}

/// Calls `syn::parse_str` for a `syn::Expr` and keeps the error's message.
/// The contract names the answer `not_an_expr`.
#[verifier::external_body]
pub(crate) fn expr_complaint(src: &str) -> (r: Option<String>)
    ensures
        not_an_expr(src@) == (match r {
            Some(message) => Some(message@),
            None => None::<Seq<char>>,
        }),
{
    match syn::parse_str::<syn::Expr>(src) {
        Ok(_) => None,
        Err(e) => Some(e.to_string()),
    }
}

/// Calls `syn::parse_str` for a `syn::DeriveInput`, then
/// `syn::Generics::split_for_impl`, and prints the name and the three parts
/// with `quote::ToTokens`. The contract names the answer `declared`.
#[verifier::external_body]
pub(crate) fn declaration_head(src: &str) -> (r: Result<DeclarationHead, String>)
    ensures
        declared(src@) == (match r {
            Ok(head) => Ok::<DeclarationHeadView, Seq<char>>(head@),
            Err(message) => Err::<DeclarationHeadView, Seq<char>>(message@),
        }),
{
    match syn::parse_str::<syn::DeriveInput>(src) {
        Ok(input) => {
            let (impl_generics, ty_generics, where_clause) = input.generics.split_for_impl();
            Ok(DeclarationHead {
                name: input.ident.to_string(),
                impl_generics: quote::ToTokens::to_token_stream(&impl_generics).to_string(),
                ty_generics: quote::ToTokens::to_token_stream(&ty_generics).to_string(),
                where_clause: quote::ToTokens::to_token_stream(&where_clause).to_string(),
            })
        }
        Err(e) => Err(e.to_string()),
    }
}

} // verus!
