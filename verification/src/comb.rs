use crate::func::Transform;
use crate::pars::{fails_with, may_fail, Matcher, Parse};
use crate::result::ParseError;
use crate::stream::{residual, TokenStream};
use vstd::prelude::*;

verus! {

// Alternation

/// Tries `left`; where it fails, tries `right` from the same position.
pub struct Or<P, Q> {
    pub left: P,
    pub right: Q,
}

impl<P: Clone, Q: Clone> Clone for Or<P, Q> {
    /// The twin holds the clones of the two parsers.
    fn clone(&self) -> (twin: Self)
        ensures
            call_ensures(P::clone, (&self.left,), twin.left),
            call_ensures(Q::clone, (&self.right,), twin.right),
    {
        Or { left: self.left.clone(), right: self.right.clone() }
    }
}

impl<P, Q> Parse for Or<P, Q> where P: Parse, Q: Parse<Input = P::Input, Output = P::Output> {
    type Input = P::Input;

    type Output = P::Output;

    type Error = Q::Error;

    open spec fn wf(&self) -> bool {
        self.left.wf() && self.right.wf()
    }

    /// A success is that of `left`, or, after a failure of `left`, that of
    /// `right` run from `at`. A failure is that of `right` after one of
    /// `left`, and leaves the cursor at `at`.
    open spec fn yields(
        &self,
        src: Seq<<P::Input as TokenStream>::Token>,
        at: nat,
        res: Result<P::Output, Q::Error>,
        end: nat,
    ) -> bool {
        match res {
            Ok(value) => {
                ||| self.left.yields(src, at, Ok(value), end)
                ||| may_fail(self.left, src, at) && self.right.yields(src, at, Ok(value), end)
            },
            Err(error) => {
                &&& end == at
                &&& may_fail(self.left, src, at)
                &&& fails_with(self.right, src, at, error)
            },
        }
    }

    fn parse(&self, tokens: &mut P::Input) -> (res: Result<P::Output, Q::Error>)
        ensures
            res is Err ==> final(tokens).cursor() == old(tokens).cursor(),
    {
        proof {
            tokens.lemma_cursor_in_bounds();
        }
        let start = tokens.checkpoint();
        match self.left.parse(tokens) {
            Ok(value) => Ok(value),
            Err(_) => {
                tokens.restore(start);
                match self.right.parse(tokens) {
                    Ok(value) => Ok(value),
                    Err(error) => {
                        tokens.restore(start);
                        Err(error)
                    },
                }
            },
        }
    }
}

// Sequencing

/// Runs `left`, then `right` from where `left` stopped, and pairs what they
/// read. Where either fails, nothing is consumed.
pub struct And<P, Q> {
    pub left: P,
    pub right: Q,
}

impl<P: Clone, Q: Clone> Clone for And<P, Q> {
    /// The twin holds the clones of the two parsers.
    fn clone(&self) -> (twin: Self)
        ensures
            call_ensures(P::clone, (&self.left,), twin.left),
            call_ensures(Q::clone, (&self.right,), twin.right),
    {
        And { left: self.left.clone(), right: self.right.clone() }
    }
}

/// `left` reads `first` from `at`, and `right` reads `second` from where
/// `left` stopped, up to `end`.
pub open spec fn reads_in_sequence<P, Q>(
    left: P,
    right: Q,
    src: Seq<<P::Input as TokenStream>::Token>,
    at: nat,
    first: P::Output,
    second: Q::Output,
    end: nat,
) -> bool where P: Parse, Q: Parse<Input = P::Input> {
    exists|mid: nat|
        #![trigger left.yields(src, at, Ok(first), mid)]
        left.yields(src, at, Ok(first), mid) && right.yields(src, mid, Ok(second), end)
}

/// `left` reads something from `at`, and `right` reads `second` from where
/// `left` stopped, up to `end`.
pub open spec fn reads_second<P, Q>(
    left: P,
    right: Q,
    src: Seq<<P::Input as TokenStream>::Token>,
    at: nat,
    second: Q::Output,
    end: nat,
) -> bool where P: Parse, Q: Parse<Input = P::Input> {
    exists|first: P::Output| #[trigger] reads_in_sequence(left, right, src, at, first, second, end)
}

/// `left` succeeds from `at` and `right` fails with `error` from where
/// `left` stopped.
pub open spec fn fails_second<P, Q>(
    left: P,
    right: Q,
    src: Seq<<P::Input as TokenStream>::Token>,
    at: nat,
    error: Q::Error,
) -> bool where P: Parse, Q: Parse<Input = P::Input> {
    exists|first: P::Output, mid: nat|
        #![trigger left.yields(src, at, Ok(first), mid)]
        left.yields(src, at, Ok(first), mid) && fails_with(right, src, mid, error)
}

/// What a sequence of `left` and `right` leaves on failure: the error of
/// `left`, or that of `right` after a success of `left`, and the cursor at
/// `at`.
pub open spec fn fails_in_sequence<P, Q>(
    left: P,
    right: Q,
    src: Seq<<P::Input as TokenStream>::Token>,
    at: nat,
    error: P::Error,
    end: nat,
) -> bool where P: Parse, Q: Parse<Input = P::Input, Error = P::Error> {
    &&& end == at
    &&& {
        ||| fails_with(left, src, at, error)
        ||| fails_second(left, right, src, at, error)
    }
}

impl<P, Q> Parse for And<P, Q> where P: Parse, Q: Parse<Input = P::Input, Error = P::Error> {
    type Input = P::Input;

    type Output = (P::Output, Q::Output);

    type Error = P::Error;

    open spec fn wf(&self) -> bool {
        self.left.wf() && self.right.wf()
    }

    /// A success pairs what `left` read from `at` with what `right` read
    /// from where `left` stopped. A failure is that of `left`, or that of
    /// `right` after a success of `left`, and leaves the cursor at `at`.
    open spec fn yields(
        &self,
        src: Seq<<P::Input as TokenStream>::Token>,
        at: nat,
        res: Result<(P::Output, Q::Output), P::Error>,
        end: nat,
    ) -> bool {
        match res {
            Ok(pair) => reads_in_sequence(self.left, self.right, src, at, pair.0, pair.1, end),
            Err(error) => fails_in_sequence(self.left, self.right, src, at, error, end),
        }
    }

    fn parse(&self, tokens: &mut P::Input) -> (res: Result<(P::Output, Q::Output), P::Error>)
        ensures
            res is Err ==> final(tokens).cursor() == old(tokens).cursor(),
            res is Err ==> residual(*final(tokens)) == residual(*old(tokens)),
    {
        proof {
            tokens.lemma_cursor_in_bounds();
        }
        let start = tokens.checkpoint();
        match self.left.parse(tokens) {
            Err(error) => {
                tokens.restore(start);
                Err(error)
            },
            Ok(first) => match self.right.parse(tokens) {
                Err(error) => {
                    tokens.restore(start);
                    Err(error)
                },
                Ok(second) => Ok((first, second)),
            },
        }
    }
}

/// Runs `left`, then `right` from where `left` stopped, and keeps only what
/// `right` read. Where either fails, nothing is consumed.
pub struct Skip<P, Q> {
    pub left: P,
    pub right: Q,
}

impl<P: Clone, Q: Clone> Clone for Skip<P, Q> {
    /// The twin holds the clones of the two parsers.
    fn clone(&self) -> (twin: Self)
        ensures
            call_ensures(P::clone, (&self.left,), twin.left),
            call_ensures(Q::clone, (&self.right,), twin.right),
    {
        Skip { left: self.left.clone(), right: self.right.clone() }
    }
}

impl<P, Q> Parse for Skip<P, Q> where P: Parse, Q: Parse<Input = P::Input, Error = P::Error> {
    type Input = P::Input;

    type Output = Q::Output;

    type Error = P::Error;

    open spec fn wf(&self) -> bool {
        self.left.wf() && self.right.wf()
    }

    /// A success is what `right` read from where `left`, run from `at`,
    /// stopped after reading something that is dropped. A failure is as in
    /// the pairing sequence.
    open spec fn yields(
        &self,
        src: Seq<<P::Input as TokenStream>::Token>,
        at: nat,
        res: Result<Q::Output, P::Error>,
        end: nat,
    ) -> bool {
        match res {
            Ok(second) => reads_second(self.left, self.right, src, at, second, end),
            Err(error) => fails_in_sequence(self.left, self.right, src, at, error, end),
        }
    }

    fn parse(&self, tokens: &mut P::Input) -> (res: Result<Q::Output, P::Error>)
        ensures
            res is Err ==> final(tokens).cursor() == old(tokens).cursor(),
            res is Err ==> residual(*final(tokens)) == residual(*old(tokens)),
    {
        proof {
            tokens.lemma_cursor_in_bounds();
        }
        let start = tokens.checkpoint();
        match self.left.parse(tokens) {
            Err(error) => {
                tokens.restore(start);
                Err(error)
            },
            Ok(first) => match self.right.parse(tokens) {
                Err(error) => {
                    tokens.restore(start);
                    Err(error)
                },
                Ok(second) => {
                    assert(reads_in_sequence(
                        self.left,
                        self.right,
                        old(tokens).source(),
                        old(tokens).cursor(),
                        first,
                        second,
                        tokens.cursor(),
                    ));
                    Ok(second)
                },
            },
        }
    }
}

// Optionality

/// Runs `inner`; where it fails, succeeds with `None` and consumes nothing.
pub struct Maybe<P> {
    pub inner: P,
}

impl<P: Clone> Clone for Maybe<P> {
    /// The twin holds the clone of the inner parser.
    fn clone(&self) -> (twin: Self)
        ensures
            call_ensures(P::clone, (&self.inner,), twin.inner),
    {
        Maybe { inner: self.inner.clone() }
    }
}

/// The parser that reads what `inner` reads, or nothing.
pub fn maybe<P: Parse>(inner: P) -> (parser: Maybe<P>)
    ensures
        parser.inner == inner,
{
    Maybe { inner }
}

impl<P: Parse> Parse for Maybe<P> {
    type Input = P::Input;

    type Output = Option<P::Output>;

    type Error = P::Error;

    open spec fn wf(&self) -> bool {
        self.inner.wf()
    }

    /// `Some` is a success of `inner`; `None` stands for a failure of
    /// `inner` and leaves the cursor at `at`. There is no failure.
    open spec fn yields(
        &self,
        src: Seq<<P::Input as TokenStream>::Token>,
        at: nat,
        res: Result<Option<P::Output>, P::Error>,
        end: nat,
    ) -> bool {
        match res {
            Ok(Some(value)) => self.inner.yields(src, at, Ok(value), end),
            Ok(None) => end == at && may_fail(self.inner, src, at),
            Err(_) => false,
        }
    }

    fn parse(&self, tokens: &mut P::Input) -> (res: Result<Option<P::Output>, P::Error>)
        ensures
            res is Ok,
    {
        proof {
            tokens.lemma_cursor_in_bounds();
        }
        let start = tokens.checkpoint();
        match self.inner.parse(tokens) {
            Ok(value) => Ok(Some(value)),
            Err(_) => {
                tokens.restore(start);
                Ok(None)
            },
        }
    }
}

// Repetition

/// Runs `inner` again and again, each time from where it last stopped, and
/// collects what it read; at least one run must succeed.
pub struct Rep<P> {
    pub inner: P,
}

impl<P: Clone> Clone for Rep<P> {
    /// The twin holds the clone of the inner parser.
    fn clone(&self) -> (twin: Self)
        ensures
            call_ensures(P::clone, (&self.inner,), twin.inner),
    {
        Rep { inner: self.inner.clone() }
    }
}

/// The parser that reads one or more of what `inner` reads.
pub fn rep<P: Parse>(inner: P) -> (parser: Rep<P>)
    ensures
        parser.inner == inner,
{
    Rep { inner }
}

/// `cuts` are the cursor positions of consecutive successful runs of
/// `inner` that read `values`: run `i` goes from `cuts[i]` to `cuts[i + 1]`.
/// Every run but the last one moves the cursor forward.
pub open spec fn repeats<P: Parse>(
    inner: P,
    src: Seq<<P::Input as TokenStream>::Token>,
    values: Seq<P::Output>,
    cuts: Seq<nat>,
) -> bool {
    &&& cuts.len() == values.len() + 1
    &&& forall|i: int|
        0 <= i < values.len() ==> inner.yields(src, #[trigger] cuts[i], Ok(values[i]), cuts[i + 1])
    &&& forall|i: int| 0 <= i < values.len() - 1 ==> #[trigger] cuts[i] < cuts[i + 1]
}

/// Why a repetition of `inner` ends at `cuts.last()`: the last run read
/// nothing, so that more runs would read the same for ever, or one more run
/// from there fails.
pub open spec fn repetition_ends<P: Parse>(
    inner: P,
    src: Seq<<P::Input as TokenStream>::Token>,
    cuts: Seq<nat>,
) -> bool {
    ||| cuts.last() <= cuts[cuts.len() - 2]
    ||| may_fail(inner, src, cuts.last())
}

/// One or more consecutive runs of `inner`, the first from `at`, may read
/// `values` and end the repetition at `end`.
pub open spec fn reads_run<P: Parse>(
    inner: P,
    src: Seq<<P::Input as TokenStream>::Token>,
    at: nat,
    values: Seq<P::Output>,
    end: nat,
) -> bool {
    exists|cuts: Seq<nat>|
        {
            &&& #[trigger] repeats(inner, src, values, cuts)
            &&& values.len() >= 1
            &&& cuts[0] == at
            &&& cuts.last() == end
            &&& repetition_ends(inner, src, cuts)
        }
}

impl<P: Parse> Parse for Rep<P> {
    type Input = P::Input;

    type Output = Vec<P::Output>;

    type Error = P::Error;

    open spec fn wf(&self) -> bool {
        self.inner.wf()
    }

    /// A failure is that of the first run, and leaves the cursor at `at`. A
    /// success holds what one or more consecutive runs read, the first from
    /// `at`, the last ending at `end`, where the repetition ends.
    open spec fn yields(
        &self,
        src: Seq<<P::Input as TokenStream>::Token>,
        at: nat,
        res: Result<Vec<P::Output>, P::Error>,
        end: nat,
    ) -> bool {
        match res {
            Ok(values) => reads_run(self.inner, src, at, values@, end),
            Err(error) => end == at && fails_with(self.inner, src, at, error),
        }
    }

    fn parse(&self, tokens: &mut P::Input) -> (res: Result<Vec<P::Output>, P::Error>)
        ensures
            res is Err ==> final(tokens).cursor() == old(tokens).cursor(),
    {
        let ghost src = tokens.source();
        let ghost at = tokens.cursor();
        let ghost mut cuts = seq![at];
        let mut values: Vec<P::Output> = Vec::new();
        loop
            invariant
                self.inner.wf(),
                tokens.inv(),
                tokens.source() == src,
                src == old(tokens).source(),
                at == old(tokens).cursor(),
                cuts[0] == at,
                cuts.last() == tokens.cursor(),
                repeats(self.inner, src, values@, cuts),
                forall|i: int| 0 <= i < values@.len() ==> #[trigger] cuts[i] < cuts[i + 1],
            decreases src.len() - tokens.cursor(),
        {
            proof {
                tokens.lemma_cursor_in_bounds();
            }
            let before = tokens.checkpoint();
            match self.inner.parse(tokens) {
                Ok(value) => {
                    proof {
                        tokens.lemma_cursor_in_bounds();
                    }
                    let after = tokens.checkpoint();
                    proof {
                        lemma_repeats_once_more(self.inner, src, values@, cuts, value, after as nat);
                        cuts = cuts.push(after as nat);
                    }
                    values.push(value);
                    if after <= before {
                        return Ok(values);
                    }
                },
                Err(error) => {
                    tokens.restore(before);
                    if values.len() == 0 {
                        return Err(error);
                    } else {
                        return Ok(values);
                    }
                },
            }
        }
    }
}

/// One more successful run, from where the last one stopped, extends a
/// repetition whose runs so far all moved forward.
proof fn lemma_repeats_once_more<P: Parse>(
    inner: P,
    src: Seq<<P::Input as TokenStream>::Token>,
    values: Seq<P::Output>,
    cuts: Seq<nat>,
    value: P::Output,
    after: nat,
)
    requires
        repeats(inner, src, values, cuts),
        forall|i: int| 0 <= i < values.len() ==> #[trigger] cuts[i] < cuts[i + 1],
        inner.yields(src, cuts.last(), Ok(value), after),
    ensures
        repeats(inner, src, values.push(value), cuts.push(after)),
        cuts.push(after)[0] == cuts[0],
        cuts.push(after).last() == after,
        cuts.push(after)[cuts.push(after).len() - 2] == cuts.last(),
{
    let values2 = values.push(value);
    let cuts2 = cuts.push(after);
    assert forall|i: int| 0 <= i < values2.len() implies inner.yields(
        src,
        #[trigger] cuts2[i],
        Ok(values2[i]),
        cuts2[i + 1],
    ) by {
        if i < values.len() {
            assert(inner.yields(src, cuts[i], Ok(values[i]), cuts[i + 1]));
        }
    }
    assert forall|i: int| 0 <= i < values2.len() - 1 implies #[trigger] cuts2[i] < cuts2[i + 1] by {
        assert(cuts[i] < cuts[i + 1]);
    }
}

// Maximal munch

/// Reads tokens for as long as the test of `matcher` accepts them; at least
/// one must be accepted.
pub struct Greedy<M> {
    pub matcher: M,
}

impl<M: Clone> Clone for Greedy<M> {
    /// The twin holds the clone of the test.
    fn clone(&self) -> (twin: Self)
        ensures
            call_ensures(M::clone, (&self.matcher,), twin.matcher),
    {
        Greedy { matcher: self.matcher.clone() }
    }
}

impl<M: Matcher> Parse for Greedy<M> {
    type Input = M::Input;

    type Output = Vec<<M::Input as TokenStream>::Token>;

    type Error = ParseError<<M::Input as TokenStream>::Token>;

    open spec fn wf(&self) -> bool {
        self.matcher.callable()
    }

    /// A success holds the tokens from `at` up to `end`, all of them
    /// accepted, where `src` ends or the token at `end` is rejected. A
    /// failure is that of the test on the token at `at`.
    open spec fn yields(
        &self,
        src: Seq<<M::Input as TokenStream>::Token>,
        at: nat,
        res: Result<
            Vec<<M::Input as TokenStream>::Token>,
            ParseError<<M::Input as TokenStream>::Token>,
        >,
        end: nat,
    ) -> bool {
        match res {
            Ok(run) => {
                &&& at < end <= src.len()
                &&& run@ == src.subrange(at as int, end as int)
                &&& forall|i: int| at <= i < end ==> self.matcher.judges(#[trigger] src[i], true)
                &&& end < src.len() ==> self.matcher.judges(src[end as int], false)
            },
            Err(error) => {
                &&& at < src.len() ==> self.matcher.judges(src[at as int], false)
                &&& error == self.matcher.complaint()
                &&& end == at
            },
        }
    }

    fn parse(&self, tokens: &mut M::Input) -> (res: Result<
        Vec<<M::Input as TokenStream>::Token>,
        ParseError<<M::Input as TokenStream>::Token>,
    >)
        ensures
            res is Err ==> final(tokens).cursor() == old(tokens).cursor(),
    {
        let ghost src = tokens.source();
        let ghost at = tokens.cursor();
        let mut run: Vec<<M::Input as TokenStream>::Token> = Vec::new();
        proof {
            tokens.lemma_cursor_in_bounds();
            assert(run@ =~= src.subrange(at as int, at as int));
        }
        loop
            invariant
                self.matcher.callable(),
                tokens.inv(),
                tokens.source() == src,
                at <= tokens.cursor() <= src.len(),
                run@ == src.subrange(at as int, tokens.cursor() as int),
                forall|i: int|
                    at <= i < tokens.cursor() ==> self.matcher.judges(#[trigger] src[i], true),
            ensures
                tokens.cursor() < src.len() ==> self.matcher.judges(
                    src[tokens.cursor() as int],
                    false,
                ),
            decreases src.len() - tokens.cursor(),
        {
            proof {
                tokens.lemma_cursor_in_bounds();
            }
            match tokens.peek() {
                Some(token) => {
                    if !self.matcher.test(&token) {
                        break ;
                    }
                },
                None => {
                    break ;
                },
            }
            let ghost before = tokens.cursor();
            let token = tokens.advance().unwrap();
            run.push(token);
            proof {
                tokens.lemma_cursor_in_bounds();
                assert(run@ =~= src.subrange(at as int, before as int).push(src[before as int]));
                assert(run@ =~= src.subrange(at as int, tokens.cursor() as int));
            }
        }
        if run.len() == 0 {
            Err(self.matcher.expected())
        } else {
            Ok(run)
        }
    }
}

// Transformation

/// Runs `inner` and hands what it read to `func`.
pub struct Mapped<P, F> {
    pub inner: P,
    pub func: F,
}

impl<P: Clone, F: Clone> Clone for Mapped<P, F> {
    /// The twin holds the clones of the inner parser and of the function.
    fn clone(&self) -> (twin: Self)
        ensures
            call_ensures(P::clone, (&self.inner,), twin.inner),
            call_ensures(F::clone, (&self.func,), twin.func),
    {
        Mapped { inner: self.inner.clone(), func: self.func.clone() }
    }
}

impl<P, F> Parse for Mapped<P, F> where P: Parse, F: Transform<P::Output> {
    type Input = P::Input;

    type Output = F::Output;

    type Error = P::Error;

    /// `func` can be called on whatever `inner` may read.
    open spec fn wf(&self) -> bool {
        &&& self.inner.wf()
        &&& forall|src: Seq<<P::Input as TokenStream>::Token>, at: nat, value: P::Output, end: nat|
            #[trigger] self.inner.yields(src, at, Ok(value), end) ==> self.func.applicable(value)
    }

    /// A success is what `func` may give on what `inner` read; a failure is
    /// that of `inner`. Either way the cursor is where `inner` left it.
    open spec fn yields(
        &self,
        src: Seq<<P::Input as TokenStream>::Token>,
        at: nat,
        res: Result<F::Output, P::Error>,
        end: nat,
    ) -> bool {
        match res {
            Ok(mapped) => maps_to(self.inner, self.func, src, at, mapped, end),
            Err(error) => self.inner.yields(src, at, Err(error), end),
        }
    }

    fn parse(&self, tokens: &mut P::Input) -> (res: Result<F::Output, P::Error>) {
        match self.inner.parse(tokens) {
            Ok(value) => Ok(self.func.apply(value)),
            Err(error) => Err(error),
        }
    }
}

/// `inner` may read, from `at` to `end`, a value of which `func` may make
/// `mapped`.
pub open spec fn maps_to<P, F>(
    inner: P,
    func: F,
    src: Seq<<P::Input as TokenStream>::Token>,
    at: nat,
    mapped: F::Output,
    end: nat,
) -> bool where P: Parse, F: Transform<P::Output> {
    exists|value: P::Output|
        #![trigger inner.yields(src, at, Ok(value), end)]
        inner.yields(src, at, Ok(value), end) && func.gives(value, mapped)
}

// Building parsers

/// The combinators as methods, on every parser.
pub trait Combine: Parse + Sized {
    /// The parser that reads what `self` reads or, where `self` fails, what
    /// `other` reads.
    fn or<Q>(self, other: Q) -> (parser: Or<Self, Q>) where
        Q: Parse<Input = Self::Input, Output = Self::Output>,

        ensures
            parser.left == self,
            parser.right == other,
    {
        Or { left: self, right: other }
    }

    /// The parser that reads what `self` reads and then what `other` reads,
    /// and gives both.
    fn and<Q>(self, other: Q) -> (parser: And<Self, Q>) where
        Q: Parse<Input = Self::Input, Error = Self::Error>,

        ensures
            parser.left == self,
            parser.right == other,
    {
        And { left: self, right: other }
    }

    /// The parser that reads what `self` reads and then what `other` reads,
    /// and gives only what `other` read.
    fn skip<Q>(self, other: Q) -> (parser: Skip<Self, Q>) where
        Q: Parse<Input = Self::Input, Error = Self::Error>,

        ensures
            parser.left == self,
            parser.right == other,
    {
        Skip { left: self, right: other }
    }

    /// The parser that reads what `self` reads and gives what `func` makes
    /// of it.
    fn map<F>(self, func: F) -> (parser: Mapped<Self, F>) where F: Transform<Self::Output>
        ensures
            parser.inner == self,
            parser.func == func,
    {
        Mapped { inner: self, func }
    }
}

impl<P: Parse> Combine for P {

}

/// The maximal-munch combinator as a method, on every test of one token.
pub trait Munch: Matcher + Sized {
    /// The parser that reads the longest run of tokens that `self` accepts.
    fn greedy(self) -> (parser: Greedy<Self>)
        ensures
            parser.matcher == self,
    {
        Greedy { matcher: self }
    }
}

impl<M: Matcher> Munch for M {

}

} // verus!
