//! The parsing capability: the one interface every parsing unit implements.

use vstd::prelude::*;

use crate::combinator::Bind;
use crate::combinator::Mapped;
use crate::transform::Continuation;
use crate::transform::Transform;

verus! {

/// A parser over text, usable any number of times without being consumed.
///
/// A parser is a value built once, at composition time, and invoked zero or
/// more times against different inputs. Invoking it either succeeds with a
/// produced value and the unconsumed remainder of the input, or fails with
/// no payload; failure never leaves a partial result behind.
///
/// The mathematical meaning of a parser is its [`Parser::spec_call`]
/// function: a total function from the input's character sequence to the
/// outcome, stated over [`DeepView`] images of the produced values. The
/// executable [`Parser::call`] is bound to it by its postcondition, so a
/// parser's behaviour is a pure function of its argument plus whatever the
/// parser captured at construction.
pub trait Parser {
    /// The type of values this parser produces on success.
    type Out: DeepView;

    /// What this parser's invocation returns, as a mathematical function:
    /// `None` for failure, or the produced value (as its deep view) paired
    /// with the remaining input.
    spec fn spec_call(&self, input: Seq<char>) -> Option<
        (<Self::Out as DeepView>::V, Seq<char>),
    >;

    /// Runs the parser on `input`.
    ///
    /// On success the returned remainder is a view over the unconsumed
    /// suffix of `input`; the original input is never mutated.
    fn call<'a>(&self, input: &'a str) -> (r: Option<(Self::Out, &'a str)>)
        ensures
            match r {
                None => self.spec_call(input@) is None,
                Some((value, rest)) => self.spec_call(input@) == Some(
                    (value.deep_view(), rest@),
                ),
            },
    ;
}

/// The composition surface derived for every parser: wrapping in
/// [`Mapped`] and [`Bind`] as method calls.
///
/// This stands apart from [`Parser`] only so that neither trait has to
/// mention the other in its own declaration; the blanket implementation
/// below gives the two methods to every parser.
pub trait ParserOps: Parser where Self: Sized {
    /// Wraps this parser so that a successful value is transformed by
    /// `func`; failure passes through untouched.
    fn map<F: Transform<In = Self::Out>>(self, func: F) -> (r: Mapped<Self, F>)
        ensures
            r == (Mapped { parser: self, func }),
    ;

    /// Sequences this parser with the one `func` picks for its value; if
    /// this parser fails, `func` is never consulted.
    fn bind<F: Continuation<In = Self::Out>>(self, func: F) -> (r: Bind<Self, F>)
        ensures
            r == (Bind { parser: self, func }),
    ;
}

impl<P: Parser> ParserOps for P {
    fn map<F: Transform<In = P::Out>>(self, func: F) -> (r: Mapped<P, F>) {
        Mapped::new(self, func)
    }

    fn bind<F: Continuation<In = P::Out>>(self, func: F) -> (r: Bind<P, F>) {
        Bind::new(self, func)
    }
}

} // verus!
