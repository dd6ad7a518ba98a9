//! A small combinator toolkit for parsing text.
//!
//! Parsers are immutable values built by composition: the primitives
//! [`primitive::Zero`], [`primitive::Return`] and [`primitive::Item`] are
//! glued together with [`combinator::Mapped`], [`combinator::Bind`] and
//! [`combinator::Take`], with captured functions modelled as the one-method
//! interfaces of [`transform`]. Nothing runs until
//! [`parser::Parser::call`] is invoked on an input; each parser's behaviour
//! is pinned down by a specification function over the input's character
//! sequence, and the functor and monad laws of the algebra are proved in
//! [`laws`].
//!
//! Failure is a single undifferentiated outcome: a parser either succeeds
//! with a value and the unconsumed remainder of the input, or fails with no
//! payload, leaving no partial result and the input untouched.

pub mod combinator;
pub mod laws;
pub mod parser;
pub mod primitive;
pub mod transform;
