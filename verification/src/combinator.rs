//! The combinators that compose parsers: value transformation, monadic
//! sequencing, and fixed-count repetition.

use vstd::prelude::*;

use crate::parser::Parser;
use crate::transform::Continuation;
use crate::transform::Transform;

verus! {

/// Runs an inner parser and, on success, transforms the produced value;
/// failure and the remaining input pass through untouched.
pub struct Mapped<P, F> {
    /// The parser whose value is transformed.
    pub parser: P,
    /// The transformation applied to a successful value.
    pub func: F,
}

impl<P, F> Mapped<P, F> where P: Parser, F: Transform<In = P::Out> {
    /// Builds the parser that runs `parser` and transforms its value with
    /// `func`.
    pub fn new(parser: P, func: F) -> (r: Self)
        ensures
            r == (Mapped { parser, func }),
    {
        Mapped { parser, func }
    }
}

impl<P, F> Parser for Mapped<P, F> where P: Parser, F: Transform<In = P::Out> {
    type Out = F::Out;

    open spec fn spec_call(&self, input: Seq<char>) -> Option<
        (<F::Out as DeepView>::V, Seq<char>),
    > {
        match self.parser.spec_call(input) {
            None => None,
            Some((value, rest)) => Some((self.func.spec_apply(value), rest)),
        }
    }

    fn call<'a>(&self, input: &'a str) -> (r: Option<(F::Out, &'a str)>) {
        match self.parser.call(input) {
            None => None,
            Some((value, rest)) => Some((self.func.apply(value), rest)),
        }
    }
}

/// Runs an inner parser and, on success, asks a continuation for the parser
/// to run on the remaining input: the sequencing primitive, under which what
/// is parsed next may depend on what was parsed already.
///
/// On failure of the inner parser the continuation is never consulted and
/// the failure passes through untouched.
pub struct Bind<P, F> {
    /// The parser run first.
    pub parser: P,
    /// The continuation consulted with the first parser's value.
    pub func: F,
}

impl<P, F> Bind<P, F> where P: Parser, F: Continuation<In = P::Out> {
    /// Builds the parser that runs `parser`, then the parser `func` picks
    /// for the produced value.
    pub fn new(parser: P, func: F) -> (r: Self)
        ensures
            r == (Bind { parser, func }),
    {
        Bind { parser, func }
    }
}

impl<P, F> Parser for Bind<P, F> where P: Parser, F: Continuation<In = P::Out> {
    type Out = <F::Next as Parser>::Out;

    open spec fn spec_call(&self, input: Seq<char>) -> Option<
        (<<F::Next as Parser>::Out as DeepView>::V, Seq<char>),
    > {
        match self.parser.spec_call(input) {
            None => None,
            Some((value, rest)) => self.func.spec_call_at(value, rest),
        }
    }

    fn call<'a>(&self, input: &'a str) -> (r: Option<
        (<F::Next as Parser>::Out, &'a str),
    >) {
        match self.parser.call(input) {
            None => None,
            Some((value, rest)) => {
                let next = self.func.apply(value);
                next.call(rest)
            },
        }
    }
}

/// The outcome of applying parser `p` exactly `n` times against
/// successively-shrinking remainders of `input`, collecting the produced
/// values in order; one failed application fails the whole repetition.
pub open spec fn repeat_spec<P: Parser>(p: P, n: nat, input: Seq<char>) -> Option<
    (Seq<<P::Out as DeepView>::V>, Seq<char>),
>
    decreases n,
{
    if n == 0 {
        Some((Seq::empty(), input))
    } else {
        match p.spec_call(input) {
            None => None,
            Some((value, rest)) => match repeat_spec(p, (n - 1) as nat, rest) {
                None => None,
                Some((tail, fin)) => Some((seq![value] + tail, fin)),
            },
        }
    }
}

/// Repeating `m + n` times is repeating `m` times and then, from where that
/// left off, `n` more; the collected values are concatenated in order, and
/// one failure anywhere fails the whole.
pub proof fn lemma_repeat_spec_split<P: Parser>(p: P, m: nat, n: nat, input: Seq<char>)
    ensures
        repeat_spec(p, m + n, input) == match repeat_spec(p, m, input) {
            None => None::<(Seq<<P::Out as DeepView>::V>, Seq<char>)>,
            Some((front, mid)) => match repeat_spec(p, n, mid) {
                None => None,
                Some((back, fin)) => Some((front + back, fin)),
            },
        },
    decreases m,
{
    if m == 0 {
        match repeat_spec(p, n, input) {
            None => {},
            Some((back, fin)) => {
                assert(Seq::<<P::Out as DeepView>::V>::empty() + back =~= back);
            },
        }
    } else {
        match p.spec_call(input) {
            None => {},
            Some((value, rest)) => {
                lemma_repeat_spec_split(p, (m - 1) as nat, n, rest);
                match repeat_spec(p, (m - 1) as nat + n, rest) {
                    None => {},
                    Some((tail, fin)) => {
                        match repeat_spec(p, (m - 1) as nat, rest) {
                            None => {},
                            Some((front, mid)) => match repeat_spec(p, n, mid) {
                                None => {},
                                Some((back, fin2)) => {
                                    assert(seq![value] + (front + back) =~= (seq![value]
                                        + front) + back);
                                },
                            },
                        }
                    },
                }
            },
        }
    }
}

/// A successful repetition collects one value per application: exactly `n`
/// of them.
proof fn lemma_repeat_spec_length<P: Parser>(p: P, n: nat, input: Seq<char>)
    ensures
        repeat_spec(p, n, input) matches Some((values, fin)) ==> values.len() == n,
    decreases n,
{
    if n > 0 {
        match p.spec_call(input) {
            None => {},
            Some((value, rest)) => {
                lemma_repeat_spec_length(p, (n - 1) as nat, rest);
            },
        }
    }
}

/// Applies an inner parser a fixed number of times, collecting the produced
/// values in order: on success the collected sequence has exactly the
/// requested length.
///
/// The repetition is all or nothing: if any application fails, the whole
/// `Take` fails, and no partial sequence or partially-advanced input is
/// observable. A negative count is treated as zero, so the parser succeeds
/// at once with an empty sequence and never iterates a negative number of
/// times.
pub struct Take<P> {
    /// How many times the inner parser is applied.
    pub count: i32,
    /// The parser applied repeatedly.
    pub parser: P,
}

impl<P: Parser> Take<P> {
    /// Builds the parser that applies `parser` exactly `count` times.
    pub fn new(count: i32, parser: P) -> (r: Self)
        ensures
            r == (Take { count, parser }),
    {
        Take { count, parser }
    }

    /// The number of repetitions a `Take` performs: its count, with a
    /// negative count meaning zero.
    pub open spec fn reps(&self) -> nat {
        if self.count >= 0 {
            self.count as nat
        } else {
            0
        }
    }
}

impl<P: Parser> Parser for Take<P> {
    type Out = Vec<P::Out>;

    open spec fn spec_call(&self, input: Seq<char>) -> Option<
        (Seq<<P::Out as DeepView>::V>, Seq<char>),
    > {
        repeat_spec(self.parser, self.reps(), input)
    }

    fn call<'a>(&self, input: &'a str) -> (r: Option<(Vec<P::Out>, &'a str)>) {
        let mut values: Vec<P::Out> = Vec::new();
        let mut rest: &'a str = input;
        let mut done: i32 = 0;
        proof {
            assert(values.deep_view() =~= Seq::<<P::Out as DeepView>::V>::empty());
        }
        while done < self.count
            invariant
                0 <= done,
                self.count >= 0 ==> done <= self.count,
                self.count < 0 ==> done == 0,
                repeat_spec(self.parser, done as nat, input@) == Some(
                    (values.deep_view(), rest@),
                ),
            decreases self.count - done,
        {
            match self.parser.call(rest) {
                None => {
                    proof {
                        lemma_repeat_spec_split(
                            self.parser,
                            done as nat,
                            (self.count - done) as nat,
                            input@,
                        );
                        assert(done as nat + (self.count - done) as nat == self.reps());
                    }
                    return None;
                },
                Some((value, remainder)) => {
                    let ghost prefix = values.deep_view();
                    values.push(value);
                    rest = remainder;
                    done = done + 1;
                    proof {
                        lemma_repeat_spec_split(self.parser, (done - 1) as nat, 1, input@);
                        assert(repeat_spec(self.parser, 0, remainder@) == Some(
                            (Seq::<<P::Out as DeepView>::V>::empty(), remainder@),
                        ));
                        assert(values.deep_view() =~= prefix + seq![value.deep_view()]);
                        assert(seq![value.deep_view()]
                            + Seq::<<P::Out as DeepView>::V>::empty() =~= seq![
                            value.deep_view(),
                        ]);
                    }
                },
            }
        }
        Some((values, rest))
    }
}

/// On success a [`Take`] hands back exactly as many values as it was asked
/// for: the collected sequence's length equals the repetition count.
pub proof fn lemma_take_length<P: Parser>(t: Take<P>, input: Seq<char>)
    ensures
        t.spec_call(input) matches Some((values, fin)) ==> values.len() == t.reps(),
{
    lemma_repeat_spec_length(t.parser, t.reps(), input);
}

/// A [`Take`] of zero repetitions behaves as a pure success: it succeeds at
/// once with the empty sequence and consumes nothing, whatever the inner
/// parser would do — the outcome of a [`crate::primitive::Return`] of the
/// empty sequence.
pub proof fn lemma_take_zero_is_pure<P: Parser>(t: Take<P>, input: Seq<char>)
    requires
        t.count <= 0,
    ensures
        t.spec_call(input) == Some((Seq::<<P::Out as DeepView>::V>::empty(), input)),
{
}

/// A [`Take`] of at least one repetition behaves as a [`Bind`] of the inner
/// parser with a `Take` of one fewer, the first value prepended to the
/// collected sequence.
///
/// Together with [`lemma_take_zero_is_pure`] this unrolls any `Take` into
/// the shape of a fold of `Bind` over its count, grounded in a pure
/// success: `Take` is no privileged primitive, only a convenience for
/// finite repetition.
pub proof fn lemma_take_unrolls_to_bind<P: Parser>(t: Take<P>, input: Seq<char>)
    requires
        t.count >= 1,
    ensures
        t.spec_call(input) == match t.parser.spec_call(input) {
            None => None::<(Seq<<P::Out as DeepView>::V>, Seq<char>)>,
            Some((value, rest)) => match (Take {
                count: (t.count - 1) as i32,
                parser: t.parser,
            }).spec_call(rest) {
                None => None,
                Some((tail, fin)) => Some((seq![value] + tail, fin)),
            },
        },
{
}

} // verus!
