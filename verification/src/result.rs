use crate::pars::Parse;
use crate::stream::{SliceStream, TokenStream};
use vstd::prelude::*;

verus! {

/// Why a parser gave up: what it wanted to read at the cursor.
#[derive(Debug, PartialEq, Eq)]
pub enum ParseError<T> {
    /// This very token was wanted.
    ExpectedToken(T),
    /// A token passing the test of this name was wanted.
    ExpectedDescribed(String),
}

impl<T: Clone> Clone for ParseError<T> {
    /// The twin is of the same kind, and holds the clone of the token or
    /// the same name.
    fn clone(&self) -> (twin: Self)
        ensures
            match *self {
                ParseError::ExpectedToken(token) => twin matches ParseError::ExpectedToken(t)
                    && call_ensures(T::clone, (&token,), t),
                ParseError::ExpectedDescribed(name) => twin == ParseError::<T>::ExpectedDescribed(
                    name,
                ),
            },
    {
        match self {
            ParseError::ExpectedToken(token) => ParseError::ExpectedToken(token.clone()),
            ParseError::ExpectedDescribed(name) => ParseError::ExpectedDescribed(name.clone()),
        }
    }
}

/// What a run over a borrowed slice gave, and the part of the slice that it
/// left unread.
#[derive(Debug)]
pub struct ParseResult<'a, T, O, E> {
    pub result: Result<O, E>,
    pub remaining: &'a [T],
}

impl<'a, T, O, E> ParseResult<'a, T, O, E> {
    /// How many tokens of `input` the run has consumed, given that
    /// `remaining` is what it left of `input`.
    pub open spec fn consumed(&self, input: Seq<T>) -> nat {
        (input.len() - self.remaining@.len()) as nat
    }
}

/// Runs `parser` on `input` from its first token. The slice itself is left
/// as it is: what the parser did not read is handed back beside the result.
pub fn run<'a, T, P>(parser: &P, input: &'a [T]) -> (out: ParseResult<'a, T, P::Output, P::Error>) where
    T: Copy,
    P: Parse<Input = SliceStream<'a, T>>,

    requires
        parser.wf(),
    ensures
        out.consumed(input@) <= input@.len(),
        out.remaining@ == input@.skip(out.consumed(input@) as int),
        parser.yields(input@, 0, out.result, out.consumed(input@)),
{
    let mut tokens = SliceStream::new(input);
    let result = parser.parse(&mut tokens);
    proof {
        tokens.lemma_cursor_in_bounds();
    }
    ParseResult { result, remaining: tokens.remaining() }
}

} // verus!
