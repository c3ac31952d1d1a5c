//! The two shapes of the code that is written out.
//!
//! The code for an actor comes in two shapes that do the same: one for a
//! build in which a trait may have `async fn` methods by way of the
//! `async-trait` feature, one for a build in which a method returns a future
//! instead. Which one is compiled is the build's choice, so both are written,
//! each under a guard, and the two guards exclude each other.

use vstd::prelude::*;

verus! {

/// How the written code says that a method is asynchronous.
#[derive(Clone, Copy, Debug, PartialEq, Eq, Structural)]
pub enum Shape {
    /// The method is an `async fn`.
    NativeAsync,
    /// The method is a plain `fn` that returns a future.
    ShimAsync,
}

/// The build's flag that chooses between the shapes.
pub const FLAG: &'static str = "feature = \"async-trait\"";

/// The condition under which a shape is compiled: the flag for the one, its
/// negation for the other.
pub open spec fn condition(shape: Shape) -> Seq<char> {
    match shape {
        Shape::NativeAsync => FLAG@,
        Shape::ShimAsync => "not("@ + FLAG@ + ")"@,
    }
}

/// The attributes in front of an item of one shape, which let the compiler
/// drop the item in a build of the other shape.
pub open spec fn guard_text(shape: Shape) -> Seq<char> {
    "#[allow(unexpected_cfgs)]\n#[cfg("@ + condition(shape) + ")]\n"@
}

/// The words that open a method.
pub open spec fn fn_words(shape: Shape) -> Seq<char> {
    match shape {
        Shape::NativeAsync => "async fn "@,
        Shape::ShimAsync => "fn "@,
    }
}

/// The return type of a method whose work gives an `output`: the output
/// itself, or a future of it.
pub open spec fn return_text(shape: Shape, output: Seq<char>) -> Seq<char> {
    match shape {
        Shape::NativeAsync => output,
        Shape::ShimAsync => "impl ::core::future::Future<Output = "@ + output + "> + Send"@,
    }
}

/// Writes the attributes in front of an item of one shape.
pub fn guard(shape: Shape) -> (out: String)
    ensures
        out@ == guard_text(shape),
{
    let mut out = String::from_str("#[allow(unexpected_cfgs)]\n#[cfg(");
    match shape {
        Shape::NativeAsync => {
            out.append(FLAG);
        },
        Shape::ShimAsync => {
            let mut negated = String::from_str("not(");
            negated.append(FLAG);
            negated.append(")");
            out.append(negated.as_str());
        },
    }
    out.append(")]\n");
    out
}

/// The words that open a method.
pub fn fn_opening(shape: Shape) -> (out: &'static str)
    ensures
        out@ == fn_words(shape),
{
    match shape {
        Shape::NativeAsync => "async fn ",
        Shape::ShimAsync => "fn ",
    }
}

/// Writes the return type of a method whose work gives an `output`.
pub fn return_type(shape: Shape, output: &str) -> (out: String)
    ensures
        out@ == return_text(shape, output@),
{
    match shape {
        Shape::NativeAsync => String::from_str(output),
        Shape::ShimAsync => {
            let mut out = String::from_str("impl ::core::future::Future<Output = ");
            out.append(output);
            out.append("> + Send");
            out
        },
    }
}

/// The two guards exclude each other: the one holds the flag and the other
/// its negation, so a build compiles the code of exactly one shape.
pub proof fn lemma_guards_exclude_each_other()
    ensures
        condition(Shape::ShimAsync) == "not("@ + condition(Shape::NativeAsync) + ")"@,
        guard_text(Shape::NativeAsync) != guard_text(Shape::ShimAsync),
{
    reveal_strlit("not(");
    let head = "#[allow(unexpected_cfgs)]\n#[cfg("@;
    let tail = ")]\n"@;
    let native = guard_text(Shape::NativeAsync);
    let shim = guard_text(Shape::ShimAsync);
    assert(native.len() == head.len() + FLAG@.len() + tail.len());
    assert(shim.len() == head.len() + ("not("@.len() + FLAG@.len() + ")"@.len()) + tail.len());
}

} // verus!
