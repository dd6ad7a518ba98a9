//! Closures as data: the one-method interfaces that [`crate::combinator::Mapped`]
//! and [`crate::combinator::Bind`] store in place of captured functions, and a
//! few ready-made implementations.

use vstd::prelude::*;

use crate::combinator::Bind;
use crate::parser::Parser;
use crate::primitive::Item;
use crate::primitive::Return;

verus! {

/// A pure, total transformation from one value type to another, captured at
/// parser-composition time.
///
/// Its mathematical meaning is [`Transform::spec_apply`], a total function
/// on the [`DeepView`] images of the values; the executable
/// [`Transform::apply`] is bound to it, so a transform can neither fail nor
/// inspect anything beyond its argument and what it captured when built.
pub trait Transform {
    /// The argument type.
    type In: DeepView;

    /// The result type.
    type Out: DeepView;

    /// What the transformation does, as a function on deep views.
    spec fn spec_apply(&self, x: <Self::In as DeepView>::V) -> <Self::Out as DeepView>::V;

    /// Applies the transformation.
    fn apply(&self, x: Self::In) -> (r: Self::Out)
        ensures
            r.deep_view() == self.spec_apply(x.deep_view()),
    ;

    /// Hands out a second, equal copy of the transform, so that combinators
    /// which must own one can be built from a borrowed one.
    fn duplicate(&self) -> (r: Self) where Self: Sized
        ensures
            r == *self,
    ;
}

/// A continuation for sequencing: a captured function from a parsed value to
/// the parser that should run next.
///
/// Its mathematical meaning is [`Continuation::spec_call_at`]: the outcome,
/// on any input, of the parser produced for a given value. The executable
/// [`Continuation::apply`] is bound to it, so the parser handed back behaves
/// the same however often the continuation is consulted.
pub trait Continuation {
    /// The type of values the continuation consumes.
    type In: DeepView;

    /// The type of parser the continuation produces.
    type Next: Parser;

    /// What the parser produced for value `x` returns on `input`, as a
    /// mathematical function.
    spec fn spec_call_at(&self, x: <Self::In as DeepView>::V, input: Seq<char>) -> Option<
        (<<Self::Next as Parser>::Out as DeepView>::V, Seq<char>),
    >;

    /// Produces the parser to run next after a value `x` was parsed.
    fn apply(&self, x: Self::In) -> (q: Self::Next)
        ensures
            forall|input: Seq<char>| q.spec_call(input) == self.spec_call_at(
                x.deep_view(),
                input,
            ),
    ;

    /// Hands out a second, equal copy of the continuation, so that
    /// combinators which must own one can be built from a borrowed one.
    fn duplicate(&self) -> (r: Self) where Self: Sized
        ensures
            r == *self,
    ;
}

/// The identity transformation: it returns its argument unchanged.
pub struct Identity<A> {
    marker: std::marker::PhantomData<A>,
}

impl<A> Identity<A> {
    /// Builds the identity transformation.
    pub fn new() -> Self {
        Identity { marker: std::marker::PhantomData }
    }
}

impl<A: DeepView> Transform for Identity<A> {
    type In = A;

    type Out = A;

    open spec fn spec_apply(&self, x: <A as DeepView>::V) -> <A as DeepView>::V {
        x
    }

    fn apply(&self, x: A) -> (r: A) {
        x
    }

    fn duplicate(&self) -> (r: Self) {
        Identity { marker: std::marker::PhantomData }
    }
}

/// The composition of two transformations: the first one is applied, then
/// the second one to its result.
pub struct Composed<F, G> {
    /// The transformation applied first.
    pub first: F,
    /// The transformation applied to the first one's result.
    pub second: G,
}

impl<F, G> Composed<F, G> where F: Transform, G: Transform<In = F::Out> {
    /// Builds the transformation that applies `first`, then `second`.
    pub fn new(first: F, second: G) -> (r: Self)
        ensures
            r == (Composed { first, second }),
    {
        Composed { first, second }
    }
}

impl<F, G> Transform for Composed<F, G> where F: Transform, G: Transform<In = F::Out> {
    type In = F::In;

    type Out = G::Out;

    open spec fn spec_apply(&self, x: <F::In as DeepView>::V) -> <G::Out as DeepView>::V {
        self.second.spec_apply(self.first.spec_apply(x))
    }

    fn apply(&self, x: F::In) -> (r: G::Out) {
        self.second.apply(self.first.apply(x))
    }

    fn duplicate(&self) -> (r: Self) {
        Composed { first: self.first.duplicate(), second: self.second.duplicate() }
    }
}

/// The uppercase image of a character: an ASCII lowercase letter becomes the
/// corresponding capital, and every other character is left unchanged.
pub open spec fn upper_char(c: char) -> char {
    if 'a' <= c && c <= 'z' {
        ((c as u8) - 32) as char
    } else {
        c
    }
}

/// The transformation that uppercases an ASCII letter, leaving every other
/// character unchanged.
pub struct ToUpper {}

impl ToUpper {
    /// Builds the uppercasing transformation.
    pub fn new() -> Self {
        ToUpper {}
    }
}

impl Transform for ToUpper {
    type In = char;

    type Out = char;

    open spec fn spec_apply(&self, x: char) -> char {
        upper_char(x)
    }

    fn apply(&self, x: char) -> (r: char) {
        if 'a' <= x && x <= 'z' {
            ((x as u8) - 32) as char
        } else {
            x
        }
    }

    fn duplicate(&self) -> (r: Self) {
        ToUpper {}
    }
}

/// Appends one character at the end of a string.
///
/// Relies on `String::push`: the string afterwards is the string before with
/// `c` appended.
#[verifier::external_body]
fn push_char(s: &mut String, c: char)
    ensures
        final(s)@ == old(s)@.push(c),
{
    s.push(c)
}

/// The transformation that turns a character into the one-character string
/// holding it.
pub struct CharToString {}

impl CharToString {
    /// Builds the character-to-string transformation.
    pub fn new() -> Self {
        CharToString {}
    }
}

impl Transform for CharToString {
    type In = char;

    type Out = String;

    open spec fn spec_apply(&self, x: char) -> Seq<char> {
        seq![x]
    }

    fn apply(&self, x: char) -> (r: String) {
        let mut r = String::new();
        push_char(&mut r, x);
        proof {
            assert(r@ =~= seq![x]);
        }
        r
    }

    fn duplicate(&self) -> (r: Self) {
        CharToString {}
    }
}

/// The transformation that puts a fixed prefix in front of a character: the
/// result is the prefix with the character appended.
pub struct PrefixChar {
    /// The prefix every result starts with.
    pub prefix: String,
}

impl PrefixChar {
    /// Builds the transformation that prefixes characters with `prefix`.
    pub fn new(prefix: String) -> (r: Self)
        ensures
            r == (PrefixChar { prefix }),
    {
        PrefixChar { prefix }
    }
}

impl Transform for PrefixChar {
    type In = char;

    type Out = String;

    open spec fn spec_apply(&self, x: char) -> Seq<char> {
        self.prefix@.push(x)
    }

    fn apply(&self, x: char) -> (r: String) {
        let mut r = self.prefix.clone();
        push_char(&mut r, x);
        r
    }

    fn duplicate(&self) -> (r: Self) {
        PrefixChar { prefix: self.prefix.clone() }
    }
}

/// The transformation that follows a character with a fixed suffix
/// character: the result is the two-character string of both.
pub struct SuffixChar {
    /// The character every result ends with.
    pub suffix: char,
}

impl SuffixChar {
    /// Builds the transformation that suffixes characters with `suffix`.
    pub fn new(suffix: char) -> (r: Self)
        ensures
            r == (SuffixChar { suffix }),
    {
        SuffixChar { suffix }
    }
}

impl Transform for SuffixChar {
    type In = char;

    type Out = String;

    open spec fn spec_apply(&self, x: char) -> Seq<char> {
        seq![x, self.suffix]
    }

    fn apply(&self, x: char) -> (r: String) {
        let mut r = String::new();
        push_char(&mut r, x);
        push_char(&mut r, self.suffix);
        proof {
            assert(r@ =~= seq![x, self.suffix]);
        }
        r
    }

    fn duplicate(&self) -> (r: Self) {
        SuffixChar { suffix: self.suffix }
    }
}

/// The transformation that takes a vector to its length.
pub struct VecLen<A> {
    marker: std::marker::PhantomData<A>,
}

impl<A> VecLen<A> {
    /// Builds the length transformation.
    pub fn new() -> Self {
        VecLen { marker: std::marker::PhantomData }
    }
}

impl<A: DeepView> Transform for VecLen<A> {
    type In = Vec<A>;

    type Out = usize;

    open spec fn spec_apply(&self, x: Seq<<A as DeepView>::V>) -> usize {
        x.len() as usize
    }

    fn apply(&self, x: Vec<A>) -> (r: usize) {
        x.len()
    }

    fn duplicate(&self) -> (r: Self) {
        VecLen { marker: std::marker::PhantomData }
    }
}

/// The transformation that follows every character of a vector with a fixed
/// suffix character, turning each into a two-character string.
pub struct SuffixEach {
    /// The character every element's string ends with.
    pub suffix: char,
}

impl SuffixEach {
    /// Builds the transformation that suffixes every character with
    /// `suffix`.
    pub fn new(suffix: char) -> (r: Self)
        ensures
            r == (SuffixEach { suffix }),
    {
        SuffixEach { suffix }
    }
}

impl Transform for SuffixEach {
    type In = Vec<char>;

    type Out = Vec<String>;

    open spec fn spec_apply(&self, x: Seq<char>) -> Seq<Seq<char>> {
        Seq::new(x.len(), |i: int| seq![x[i], self.suffix])
    }

    fn apply(&self, x: Vec<char>) -> (r: Vec<String>) {
        let mut out: Vec<String> = Vec::new();
        let mut done: usize = 0;
        proof {
            assert(out.deep_view() =~= self.spec_apply(x.deep_view()).take(0));
        }
        while done < x.len()
            invariant
                done <= x@.len(),
                out@.len() == done as int,
                out.deep_view() == self.spec_apply(x.deep_view()).take(done as int),
            decreases x@.len() - done,
        {
            let c = x[done];
            let mut piece = String::new();
            push_char(&mut piece, c);
            push_char(&mut piece, self.suffix);
            proof {
                assert(piece@ =~= seq![x.deep_view()[done as int], self.suffix]);
            }
            let ghost piece_view = piece@;
            let ghost prefix = out.deep_view();
            out.push(piece);
            done = done + 1;
            proof {
                assert forall|i: int| 0 <= i < done as int implies out.deep_view()[i]
                    == self.spec_apply(x.deep_view())[i] by {
                    if i < done - 1 {
                        assert(out.deep_view()[i] == prefix[i]);
                    } else {
                        assert(out.deep_view()[i] == piece_view);
                    }
                }
                assert(out.deep_view() =~= self.spec_apply(x.deep_view()).take(done as int));
            }
        }
        proof {
            assert(self.spec_apply(x.deep_view()).take(x@.len() as int) =~= self.spec_apply(
                x.deep_view(),
            ));
        }
        out
    }

    fn duplicate(&self) -> (r: Self) {
        SuffixEach { suffix: self.suffix }
    }
}

/// The continuation that wraps the parsed value back into a [`Return`]: the
/// parser it produces succeeds with that value and consumes nothing.
pub struct ToReturn<A> {
    marker: std::marker::PhantomData<A>,
}

impl<A> ToReturn<A> {
    /// Builds the wrapping continuation.
    pub fn new() -> Self {
        ToReturn { marker: std::marker::PhantomData }
    }
}

impl<A: DeepView> Continuation for ToReturn<A> {
    type In = A;

    type Next = Return<A>;

    open spec fn spec_call_at(&self, x: <A as DeepView>::V, input: Seq<char>) -> Option<
        (<A as DeepView>::V, Seq<char>),
    > {
        Some((x, input))
    }

    fn apply(&self, x: A) -> (q: Return<A>) {
        Return::new(x)
    }

    fn duplicate(&self) -> (r: Self) {
        ToReturn { marker: std::marker::PhantomData }
    }
}

/// The continuation that transforms the parsed value and wraps the result
/// into a [`Return`]: the parser it produces succeeds with the transformed
/// value and consumes nothing.
pub struct MapReturn<T> {
    /// The transformation applied to the parsed value.
    pub inner: T,
}

impl<T: Transform> MapReturn<T> {
    /// Builds the continuation that returns `inner`'s image of the value.
    pub fn new(inner: T) -> (r: Self)
        ensures
            r == (MapReturn { inner }),
    {
        MapReturn { inner }
    }
}

impl<T: Transform> Continuation for MapReturn<T> {
    type In = T::In;

    type Next = Return<T::Out>;

    open spec fn spec_call_at(&self, x: <T::In as DeepView>::V, input: Seq<char>) -> Option<
        (<T::Out as DeepView>::V, Seq<char>),
    > {
        Some((self.inner.spec_apply(x), input))
    }

    fn apply(&self, x: T::In) -> (q: Return<T::Out>) {
        Return::new(self.inner.apply(x))
    }

    fn duplicate(&self) -> (r: Self) {
        MapReturn { inner: self.inner.duplicate() }
    }
}

/// The continuation that discards the parsed value and reads the next
/// character: the parser it produces is [`Item`].
pub struct ThenItem<A> {
    marker: std::marker::PhantomData<A>,
}

impl<A> ThenItem<A> {
    /// Builds the discarding continuation.
    pub fn new() -> Self {
        ThenItem { marker: std::marker::PhantomData }
    }
}

impl<A: DeepView> Continuation for ThenItem<A> {
    type In = A;

    type Next = Item;

    open spec fn spec_call_at(&self, x: <A as DeepView>::V, input: Seq<char>) -> Option<
        (char, Seq<char>),
    > {
        if input.len() == 0 {
            None
        } else {
            Some((input[0], input.subrange(1, input.len() as int)))
        }
    }

    fn apply(&self, _x: A) -> (q: Item) {
        Item::new()
    }

    fn duplicate(&self) -> (r: Self) {
        ThenItem { marker: std::marker::PhantomData }
    }
}

/// The composition of two continuations: the parser it produces runs the
/// first continuation's parser, then the second continuation's choice for
/// that parser's value.
pub struct Chained<F, G> {
    /// The continuation consulted first.
    pub first: F,
    /// The continuation consulted with the first parser's value.
    pub second: G,
}

impl<F, G> Chained<F, G> where
    F: Continuation,
    G: Continuation<In = <F::Next as Parser>::Out>,
 {
    /// Builds the continuation that chains `first` and `second`.
    pub fn new(first: F, second: G) -> (r: Self)
        ensures
            r == (Chained { first, second }),
    {
        Chained { first, second }
    }
}

impl<F, G> Continuation for Chained<F, G> where
    F: Continuation,
    G: Continuation<In = <F::Next as Parser>::Out>,
 {
    type In = F::In;

    type Next = Bind<F::Next, G>;

    open spec fn spec_call_at(&self, x: <F::In as DeepView>::V, input: Seq<char>) -> Option<
        (<<G::Next as Parser>::Out as DeepView>::V, Seq<char>),
    > {
        match self.first.spec_call_at(x, input) {
            None => None,
            Some((value, rest)) => self.second.spec_call_at(value, rest),
        }
    }

    fn apply(&self, x: F::In) -> (q: Bind<F::Next, G>) {
        Bind::new(self.first.apply(x), self.second.duplicate())
    }

    fn duplicate(&self) -> (r: Self) {
        Chained { first: self.first.duplicate(), second: self.second.duplicate() }
    }
}

} // verus!
