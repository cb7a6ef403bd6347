//! Ad-hoc error construction: building an [`Error`] directly from a message
//! or a format template, with no underlying native error.
//!
//! A template that is a plain literal is wrapped verbatim, without invoking
//! the formatting engine; only a template with substitutions is rendered
//! eagerly into an owned string first.

use vstd::prelude::*;

use crate::Error;

verus! {

#[verifier::external_type_specification]
#[verifier::external_body]
pub struct ExArguments<'a>(core::fmt::Arguments<'a>);

/// The template a packaged `Arguments` value is made of, where it is a plain
/// literal with no substitutions to format; absent otherwise. A function of
/// the `Arguments` value alone.
pub uninterp spec fn literal_text(args: core::fmt::Arguments) -> Option<Seq<char>>;

/// What the std formatting engine renders a packaged `Arguments` value to: a
/// function of the `Arguments` value alone.
pub uninterp spec fn formatted_text(args: core::fmt::Arguments) -> Seq<char>;

/// Relies on `core::fmt::Arguments::as_str`: hands back the template itself
/// exactly when it is a plain literal with no substitutions to format — and
/// such a template renders to itself.
#[verifier::external_body]
fn arguments_as_literal<'a>(args: &core::fmt::Arguments<'a>) -> (r: Option<&'static str>)
    ensures
        r is Some <==> literal_text(*args) is Some,
        r is Some ==> r.unwrap()@ == literal_text(*args).unwrap(),
        r is Some ==> formatted_text(*args) == r.unwrap()@,
{
    args.as_str()
}

/// Relies on the std formatting engine, through the `format` macro: renders
/// the template with its substitutions into an owned string.
#[verifier::external_body]
fn arguments_to_string<'a>(args: core::fmt::Arguments<'a>) -> (r: String)
    ensures
        r@ == formatted_text(args),
{
    format!("{}", args)
}

/// Builds an ad-hoc [`Error`] from a format template; its message is what
/// the formatting engine renders the template to. A plain literal is wrapped
/// verbatim — the formatting engine is not invoked — and any other template
/// is rendered eagerly and wrapped; either way both snapshots are captured
/// here.
pub fn format_err<'a>(args: core::fmt::Arguments<'a>) -> (r: Error)
    ensures
        r.source@ == formatted_text(args),
{
    match arguments_as_literal(&args) {
        Some(message) => Error::msg_str(message),
        None => Error::from_message(arguments_to_string(args)),
    }
}

/// Hands an [`Error`] back unchanged; its only point is the lint that warns
/// a caller who drops the value.
#[must_use]
pub fn must_use(error: Error) -> (r: Error)
    ensures
        r == error,
{
    error
}

/// A boolean-like value: a `bool` taken by value or by reference.
pub trait Bool: Sized {
    /// The `bool` this value stands for.
    spec fn truth(self) -> bool;

    /// The negation of the `bool` this value stands for.
    fn not(self) -> (r: bool)
        ensures
            r == !self.truth(),
    ;
}

impl Bool for bool {
    open spec fn truth(self) -> bool {
        self
    }

    fn not(self) -> (r: bool) {
        !self
    }
}

impl<'a> Bool for &'a bool {
    open spec fn truth(self) -> bool {
        *self
    }

    fn not(self) -> (r: bool) {
        !*self
    }
}

/// Turns a boolean-like value into the negation of the `bool` it stands for.
pub fn not<B: Bool>(cond: B) -> (r: bool)
    ensures
        r == !cond.truth(),
{
    cond.not()
}

} // verus!
