//! The primitive parsers: unconditional failure, pure success, and
//! single-character consumption.

use std::rc::Rc;

use vstd::prelude::*;
use vstd::string::StrSliceExecFns;

use crate::parser::Parser;

verus! {

/// The parser that fails on every input, the failure identity of the
/// algebra: bound or mapped with anything, the whole composition fails.
pub struct Zero<A> {
    marker: std::marker::PhantomData<A>,
}

impl<A> Zero<A> {
    /// Builds the always-failing parser.
    pub fn new() -> Self {
        Zero { marker: std::marker::PhantomData }
    }
}

impl<A: DeepView> Parser for Zero<A> {
    type Out = A;

    open spec fn spec_call(&self, input: Seq<char>) -> Option<
        (<A as DeepView>::V, Seq<char>),
    > {
        None
    }

    fn call<'a>(&self, _input: &'a str) -> (r: Option<(A, &'a str)>) {
        None
    }
}

/// Hands out one more owned handle to the value held by a [`Return`].
///
/// Relies on `Rc::clone`: the returned handle points to the very value that
/// `data` points to.
#[verifier::external_body]
fn rc_duplicate<A>(data: &Rc<A>) -> (r: Rc<A>)
    ensures
        r == *data,
{
    Rc::clone(data)
}

/// The parser that always succeeds with a fixed value and consumes nothing:
/// the success identity for sequencing.
///
/// The value is held behind a reference count only so that every invocation
/// can hand out the same value cheaply; the contract speaks of the value
/// itself.
pub struct Return<A> {
    /// The value produced on every invocation.
    pub data: Rc<A>,
}

impl<A> Return<A> {
    /// Builds the parser that always succeeds with `data`.
    pub fn new(data: A) -> (r: Self)
        ensures
            r.data == data,
    {
        Return { data: Rc::new(data) }
    }
}

impl<A: DeepView> Parser for Return<A> {
    type Out = Rc<A>;

    open spec fn spec_call(&self, input: Seq<char>) -> Option<
        (<A as DeepView>::V, Seq<char>),
    > {
        Some((self.data.deep_view(), input))
    }

    fn call<'a>(&self, input: &'a str) -> (r: Option<(Rc<A>, &'a str)>) {
        Some((rc_duplicate(&self.data), input))
    }
}

/// The parser that consumes exactly one character: it succeeds with the
/// first character and the rest of the input, and fails on empty input.
///
/// This is the only primitive that inspects the input; everything else is
/// built around it by composition.
pub struct Item {}

impl Item {
    /// Builds the single-character parser.
    pub fn new() -> Self {
        Item {}
    }
}

impl Parser for Item {
    type Out = char;

    open spec fn spec_call(&self, input: Seq<char>) -> Option<(char, Seq<char>)> {
        if input.len() == 0 {
            None
        } else {
            Some((input[0], input.subrange(1, input.len() as int)))
        }
    }

    fn call<'a>(&self, input: &'a str) -> (r: Option<(char, &'a str)>) {
        let n = input.unicode_len();
        if n == 0 {
            None
        } else {
            let c = input.get_char(0);
            let rest = input.substring_char(1, n);
            Some((c, rest))
        }
    }
}

} // verus!
