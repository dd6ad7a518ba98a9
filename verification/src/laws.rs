//! The algebraic laws of the combinators: the functor laws of [`Mapped`] and
//! the monad laws of [`Return`] and [`Bind`], proved for every parser,
//! transformation, continuation and input.
//!
//! Two parsers are interchangeable when their [`Parser::spec_call`]
//! functions agree on every input, because each parser's executable `call`
//! is pinned to its `spec_call` by the [`Parser`] contract. The laws are
//! therefore stated as equalities of `spec_call` outcomes.

use std::rc::Rc;

use vstd::prelude::*;

use crate::combinator::Bind;
use crate::combinator::Mapped;
use crate::parser::Parser;
use crate::primitive::Return;
use crate::transform::Chained;
use crate::transform::Composed;
use crate::transform::Continuation;
use crate::transform::ToReturn;
use crate::transform::Transform;

verus! {

/// Functor identity: mapping a parser through a transformation that returns
/// every value unchanged leaves the parser's outcome unchanged, on every
/// input.
pub proof fn lemma_functor_identity<P, F>(p: P, f: F, s: Seq<char>) where
    P: Parser,
    F: Transform<In = P::Out, Out = P::Out>,

    requires
        forall|x: <P::Out as DeepView>::V| #[trigger] f.spec_apply(x) == x,
    ensures
        (Mapped { parser: p, func: f }).spec_call(s) == p.spec_call(s),
{
}

/// Functor composition: mapping a parser through one transformation and then
/// another gives the same outcome as mapping it once through their
/// composition, on every input.
pub proof fn lemma_functor_composition<P, F, G>(p: P, f: F, g: G, s: Seq<char>) where
    P: Parser,
    F: Transform<In = P::Out>,
    G: Transform<In = F::Out>,

    ensures
        (Mapped { parser: (Mapped { parser: p, func: f }), func: g }).spec_call(s) == (Mapped {
            parser: p,
            func: (Composed { first: f, second: g }),
        }).spec_call(s),
{
}

/// Monad left identity: binding a continuation onto a pure [`Return`] gives
/// exactly the outcome of the parser the continuation picks for the returned
/// value, on every input.
pub proof fn lemma_monad_left_identity<A, F>(v: Rc<A>, f: F, s: Seq<char>) where
    A: DeepView,
    F: Continuation<In = Rc<A>>,

    ensures
        (Bind { parser: (Return { data: v }), func: f }).spec_call(s) == f.spec_call_at(
            v.deep_view(),
            s,
        ),
{
}

/// Monad right identity: binding the continuation that wraps every value
/// back into a [`Return`] leaves the parser's outcome unchanged, on every
/// input.
pub proof fn lemma_monad_right_identity<P>(p: P, k: ToReturn<P::Out>, s: Seq<char>) where
    P: Parser,

    ensures
        (Bind { parser: p, func: k }).spec_call(s) == p.spec_call(s),
{
}

/// Monad associativity: binding two continuations one after the other gives
/// the same outcome as binding their chaining once, on every input.
pub proof fn lemma_monad_associativity<P, F, G>(p: P, f: F, g: G, s: Seq<char>) where
    P: Parser,
    F: Continuation<In = P::Out>,
    G: Continuation<In = <F::Next as Parser>::Out>,

    ensures
        (Bind { parser: (Bind { parser: p, func: f }), func: g }).spec_call(s) == (Bind {
            parser: p,
            func: (Chained { first: f, second: g }),
        }).spec_call(s),
{
}

} // verus!
