//! Parser combinators over token streams, with contracts.
//!
//! A parser is a value of a type with [`Parse`]: it reads from a
//! [`TokenStream`] and gives a value or an error. Parsers are built from the
//! primitives [`token`], [`predicate`] and [`fn_parser`] with the combinators
//! `or`, `and`, `skip`, `map`, `greedy`, [`maybe`] and [`rep`]. [`run`] parses
//! a slice and hands back what was not read.
//!
//! Every parser states what a run may give as a relation, `Parse::yields`;
//! the laws that the combinators obey are proved in [`laws`].

pub mod comb;
pub mod func;
pub mod laws;
pub mod pars;
pub mod result;
pub mod stream;

pub use comb::{maybe, rep, And, Combine, Greedy, Mapped, Maybe, Munch, Or, Rep, Skip};
pub use func::{StreamFn, TokenTest, Transform};
pub use pars::{fn_parser, predicate, token, FnParser, Matcher, Parse, Predicate, Token};
pub use result::{run, ParseError, ParseResult};
pub use stream::{residual, SliceStream, TokenStream};
