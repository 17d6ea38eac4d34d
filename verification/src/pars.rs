use crate::func::{StreamFn, TokenTest};
use crate::result::ParseError;
use crate::stream::TokenStream;
use core::marker::PhantomData;
use vstd::prelude::*;

verus! {

// The parse contract

/// A description of how to read a value off a stream.
///
/// A parser holds no stream state: a run reads the parser and moves the
/// cursor of the stream it is given, nothing else. What a run may give is
/// stated as a relation, `yields`, between the input, the cursor before the
/// run, the result and the cursor after it. Where the tests and functions
/// that a parser is built from have exact contracts, the relation pins down
/// what a run gives.
///
/// A parser that fails need not have put the cursor back. The primitives
/// `Token` and `Predicate` do, and so does every combinator but the
/// transformation, which fails as its inner parser does; a `FnParser` does
/// what its function does.
pub trait Parse {
    type Input: TokenStream;

    type Output;

    type Error;

    /// Validity of the parser: its functions can be called on whatever it
    /// will hand them.
    spec fn wf(&self) -> bool;

    /// A run on `src` that starts with the cursor at `at` may end with
    /// `res`, the cursor at `end`.
    spec fn yields(
        &self,
        src: Seq<<Self::Input as TokenStream>::Token>,
        at: nat,
        res: Result<Self::Output, Self::Error>,
        end: nat,
    ) -> bool;

    /// Runs the parser at the cursor of `tokens`. The input stays as it is;
    /// the result and the new cursor are as `yields` allows.
    fn parse(&self, tokens: &mut Self::Input) -> (res: Result<Self::Output, Self::Error>)
        requires
            self.wf(),
            old(tokens).inv(),
        ensures
            final(tokens).inv(),
            final(tokens).source() == old(tokens).source(),
            self.yields(old(tokens).source(), old(tokens).cursor(), res, final(tokens).cursor()),
    ;
}

/// A run of `parser` on `src` from `at` may fail with `error`.
pub open spec fn fails_with<P: Parse>(
    parser: P,
    src: Seq<<P::Input as TokenStream>::Token>,
    at: nat,
    error: P::Error,
) -> bool {
    exists|end: nat| #[trigger] parser.yields(src, at, Err(error), end)
}

/// A run of `parser` on `src` from `at` may fail.
pub open spec fn may_fail<P: Parse>(
    parser: P,
    src: Seq<<P::Input as TokenStream>::Token>,
    at: nat,
) -> bool {
    exists|error: P::Error, end: nat| #[trigger] parser.yields(src, at, Err(error), end)
}

/// A borrowed parser parses as the parser itself.
impl<'a, P: Parse> Parse for &'a P {
    type Input = P::Input;

    type Output = P::Output;

    type Error = P::Error;

    open spec fn wf(&self) -> bool {
        (**self).wf()
    }

    open spec fn yields(
        &self,
        src: Seq<<P::Input as TokenStream>::Token>,
        at: nat,
        res: Result<P::Output, P::Error>,
        end: nat,
    ) -> bool {
        (**self).yields(src, at, res, end)
    }

    fn parse(&self, tokens: &mut P::Input) -> (res: Result<P::Output, P::Error>) {
        (*self).parse(tokens)
    }
}

/// A test of one token, with the error to report where it does not hold.
pub trait Matcher {
    type Input: TokenStream;

    /// The test can be called on every token.
    spec fn callable(&self) -> bool;

    /// `verdict` is an answer that the test may give on `token`.
    spec fn judges(&self, token: <Self::Input as TokenStream>::Token, verdict: bool) -> bool;

    /// The error reported for a token that the test rejects, or for the end
    /// of the input.
    spec fn complaint(&self) -> ParseError<<Self::Input as TokenStream>::Token>;

    fn test(&self, token: &<Self::Input as TokenStream>::Token) -> (verdict: bool)
        requires
            self.callable(),
        ensures
            self.judges(*token, verdict),
    ;

    fn expected(&self) -> (error: ParseError<<Self::Input as TokenStream>::Token>)
        ensures
            error == self.complaint(),
    ;
}

/// What a parser of one token gives: the token at the cursor where the test
/// accepts it, the cursor moved past it; else the test's error, the cursor
/// left in place.
pub open spec fn matches_one<M: Matcher>(
    matcher: M,
    src: Seq<<M::Input as TokenStream>::Token>,
    at: nat,
    res: Result<<M::Input as TokenStream>::Token, ParseError<<M::Input as TokenStream>::Token>>,
    end: nat,
) -> bool {
    match res {
        Ok(token) => {
            &&& at < src.len()
            &&& token == src[at as int]
            &&& matcher.judges(src[at as int], true)
            &&& end == at + 1
        },
        Err(error) => {
            &&& at < src.len() ==> matcher.judges(src[at as int], false)
            &&& error == matcher.complaint()
            &&& end == at
        },
    }
}

// The exact-token primitive

/// Accepts the token that equals the one it holds.
pub struct Token<S: TokenStream>(pub S::Token);

impl<S> Clone for Token<S> where S: TokenStream, S::Token: Copy {
    fn clone(&self) -> (twin: Self)
        ensures
            twin == *self,
    {
        Token(self.0)
    }
}

/// Equality of characters in std, `<char as PartialEq>::eq`: it answers
/// `true` exactly where the two are the same character. An exact-token
/// parser compares with the `==` of its token type, which on a stream of
/// characters is this function.
pub assume_specification[ <char as PartialEq<char>>::eq ](left: &char, right: &char) -> (equal:
    bool)
    ensures
        equal == (*left == *right),
;

/// The parser of the one token `expected`.
pub fn token<S: TokenStream>(expected: S::Token) -> (parser: Token<S>)
    ensures
        parser.0 == expected,
{
    Token(expected)
}

impl<S> Matcher for Token<S> where S: TokenStream, S::Token: PartialEq + Copy {
    type Input = S;

    open spec fn callable(&self) -> bool {
        true
    }

    /// What `==` of the token type may answer on `token` and the held
    /// token. Where that `==` has a contract of its own, as it has for the
    /// integer types and for `char`, this is whether the two are equal.
    open spec fn judges(&self, token: S::Token, verdict: bool) -> bool {
        call_ensures(<S::Token as PartialEq>::eq, (&token, &self.0), verdict)
    }

    open spec fn complaint(&self) -> ParseError<S::Token> {
        ParseError::ExpectedToken(self.0)
    }

    fn test(&self, token: &S::Token) -> (verdict: bool) {
        *token == self.0
    }

    fn expected(&self) -> (error: ParseError<S::Token>) {
        ParseError::ExpectedToken(self.0)
    }
}

impl<S> Parse for Token<S> where S: TokenStream, S::Token: PartialEq + Copy {
    type Input = S;

    type Output = S::Token;

    type Error = ParseError<S::Token>;

    open spec fn wf(&self) -> bool {
        true
    }

    open spec fn yields(
        &self,
        src: Seq<S::Token>,
        at: nat,
        res: Result<S::Token, ParseError<S::Token>>,
        end: nat,
    ) -> bool {
        matches_one(*self, src, at, res, end)
    }

    fn parse(&self, tokens: &mut S) -> (res: Result<S::Token, ParseError<S::Token>>)
        ensures
            res is Err ==> final(tokens).cursor() == old(tokens).cursor(),
    {
        let next_token = tokens.peek();
        let satisfied = match next_token {
            Some(t) => t == self.0,
            None => false,
        };
        if satisfied {
            Ok(tokens.advance().unwrap())
        } else {
            Err(ParseError::ExpectedToken(self.0))
        }
    }
}

// The predicate primitive

/// Accepts the token on which its test answers `true`. The name says what
/// the test looks for, and is reported where it finds none.
pub struct Predicate<F, S> where S: TokenStream, F: TokenTest<S::Token> {
    name: String,
    predicate: F,
    _phantom: PhantomData<S>,
}

impl<F, S> Predicate<F, S> where S: TokenStream, F: TokenTest<S::Token> {
    /// The name given to the test.
    pub closed spec fn name(&self) -> String {
        self.name
    }

    /// The test itself.
    pub closed spec fn test_fn(&self) -> F {
        self.predicate
    }
}

impl<F, S> Clone for Predicate<F, S> where S: TokenStream, F: Clone + TokenTest<S::Token> {
    /// The twin has the name of `self`, and as its test the clone of the
    /// test of `self`.
    fn clone(&self) -> (twin: Self)
        ensures
            twin.name() == self.name(),
            call_ensures(F::clone, (&self.test_fn(),), twin.test_fn()),
    {
        Predicate {
            name: self.name.clone(),
            predicate: self.predicate.clone(),
            _phantom: PhantomData,
        }
    }
}

/// The parser of one token that passes the test `f`, called `name` in
/// errors.
pub fn predicate<F, T, S>(name: S, f: F) -> (parser: Predicate<F, T>) where
    T: TokenStream,
    F: TokenTest<T::Token>,
    S: Into<String>,

    ensures
        call_ensures(S::into, (name,), parser.name()),
        parser.test_fn() == f,
{
    Predicate { name: name.into(), predicate: f, _phantom: PhantomData }
}

impl<F, S> Matcher for Predicate<F, S> where S: TokenStream, F: TokenTest<S::Token> {
    type Input = S;

    open spec fn callable(&self) -> bool {
        forall|token: S::Token| #[trigger] self.test_fn().testable(token)
    }

    open spec fn judges(&self, token: S::Token, verdict: bool) -> bool {
        self.test_fn().answers(token, verdict)
    }

    open spec fn complaint(&self) -> ParseError<S::Token> {
        ParseError::ExpectedDescribed(self.name())
    }

    fn test(&self, token: &S::Token) -> (verdict: bool) {
        self.predicate.accepts(token)
    }

    fn expected(&self) -> (error: ParseError<S::Token>) {
        ParseError::ExpectedDescribed(self.name.clone())
    }
}

impl<F, S> Parse for Predicate<F, S> where S: TokenStream, F: TokenTest<S::Token> {
    type Input = S;

    type Output = S::Token;

    type Error = ParseError<S::Token>;

    open spec fn wf(&self) -> bool {
        self.callable()
    }

    open spec fn yields(
        &self,
        src: Seq<S::Token>,
        at: nat,
        res: Result<S::Token, ParseError<S::Token>>,
        end: nat,
    ) -> bool {
        matches_one(*self, src, at, res, end)
    }

    fn parse(&self, tokens: &mut S) -> (res: Result<S::Token, ParseError<S::Token>>)
        ensures
            res is Err ==> final(tokens).cursor() == old(tokens).cursor(),
    {
        let next_token = tokens.peek();
        let satisfied = match next_token {
            Some(t) => {
                assert(self.test_fn().testable(t));
                self.predicate.accepts(&t)
            },
            None => false,
        };
        if satisfied {
            Ok(tokens.advance().unwrap())
        } else {
            Err(ParseError::ExpectedDescribed(self.name.clone()))
        }
    }
}

// The function-wrapped primitive

/// A parser made of a function on streams. Whether a failure consumes
/// anything is up to the function.
pub struct FnParser<F, I>(F, PhantomData<I>);

impl<F, I> FnParser<F, I> {
    /// The wrapped function.
    pub closed spec fn func(&self) -> F {
        self.0
    }
}

/// The parser that runs `f`.
pub fn fn_parser<I, F>(f: F) -> (parser: FnParser<F, I>) where F: StreamFn<I>
    ensures
        parser.func() == f,
{
    FnParser(f, PhantomData)
}

impl<S, F> Parse for FnParser<F, S> where S: TokenStream, F: StreamFn<S> {
    type Input = S;

    type Output = F::Value;

    type Error = F::Error;

    /// The function takes every valid stream, and leaves a valid stream
    /// over the same input.
    open spec fn wf(&self) -> bool {
        &&& forall|before: S| before.inv() ==> #[trigger] self.func().runnable(before)
        &&& forall|before: S, res: Result<F::Value, F::Error>, after: S|
            before.inv() && #[trigger] self.func().leaves(before, res, after) ==> {
                &&& after.inv()
                &&& after.source() == before.source()
            }
    }

    /// The function may give `res`, and move the cursor to `end`, on some
    /// valid stream over `src` with the cursor at `at`.
    open spec fn yields(
        &self,
        src: Seq<S::Token>,
        at: nat,
        res: Result<F::Value, F::Error>,
        end: nat,
    ) -> bool {
        runs_on(self.func(), src, at, res, end)
    }

    /// Calls the function once, on the caller's stream: the result is what
    /// the function gave on it, and the stream is left as the function left
    /// it.
    fn parse(&self, tokens: &mut S) -> (res: Result<F::Value, F::Error>)
        ensures
            self.func().leaves(*old(tokens), res, *final(tokens)),
    {
        assert(self.func().runnable(*tokens));
        self.0.read(tokens)
    }
}

/// `f` may give `res`, and move the cursor to `end`, on some valid stream
/// over `src` with the cursor at `at`.
pub open spec fn runs_on<S: TokenStream, F: StreamFn<S>>(
    f: F,
    src: Seq<S::Token>,
    at: nat,
    res: Result<F::Value, F::Error>,
    end: nat,
) -> bool {
    exists|before: S, after: S|
        {
            &&& before.inv()
            &&& before.source() == src
            &&& before.cursor() == at
            &&& after.cursor() == end
            &&& #[trigger] f.leaves(before, res, after)
        }
}

} // verus!
