use crate::comb::{
    fails_second, reads_in_sequence, repeats, repetition_ends, And, Greedy, Mapped, Maybe, Or, Rep,
    Skip,
};
use crate::func::Transform;
use crate::pars::{fails_with, may_fail, Matcher, Parse};
use crate::result::ParseError;
use crate::stream::{residual, TokenStream};
use vstd::prelude::*;

verus! {

// Backtracking

/// Putting the cursor back gives back the unread input: two states of a
/// stream over the same input whose cursors agree have the same tokens left
/// to read, whatever was peeked at or read in between.
pub proof fn lemma_restored_stream_reads_the_same<S: TokenStream>(saved: S, restored: S)
    requires
        restored.source() == saved.source(),
        restored.cursor() == saved.cursor(),
    ensures
        residual(restored) == residual(saved),
{
}

// Atomicity of sequencing

/// A sequence that fails has consumed nothing, whichever half failed: the
/// cursor is where it was, and the error is that of the left parser, or
/// that of the right parser run where the left one stopped.
pub proof fn lemma_and_is_atomic<P, Q>(
    parser: And<P, Q>,
    src: Seq<<P::Input as TokenStream>::Token>,
    at: nat,
    error: P::Error,
    end: nat,
) where P: Parse, Q: Parse<Input = P::Input, Error = P::Error>
    requires
        parser.yields(src, at, Err(error), end),
    ensures
        end == at,
        fails_with(parser.left, src, at, error) || fails_second(
            parser.left,
            parser.right,
            src,
            at,
            error,
        ),
{
}

/// A sequence that keeps only its second value fails as the pairing
/// sequence does: it has consumed nothing, whichever half failed.
pub proof fn lemma_skip_is_atomic<P, Q>(
    parser: Skip<P, Q>,
    src: Seq<<P::Input as TokenStream>::Token>,
    at: nat,
    error: P::Error,
    end: nat,
) where P: Parse, Q: Parse<Input = P::Input, Error = P::Error>
    requires
        parser.yields(src, at, Err(error), end),
    ensures
        end == at,
        fails_with(parser.left, src, at, error) || fails_second(
            parser.left,
            parser.right,
            src,
            at,
            error,
        ),
{
}

/// The two sequences consume alike: over the same two parsers, the one
/// that keeps the second value may read it up to `end` exactly where the
/// pairing one may read, up to `end`, a pair that holds it; and they fail on
/// the same inputs with the same errors.
pub proof fn lemma_skip_consumes_as_and<P, Q>(
    pairing: And<P, Q>,
    dropping: Skip<P, Q>,
    src: Seq<<P::Input as TokenStream>::Token>,
    at: nat,
    second: Q::Output,
    error: P::Error,
    end: nat,
) where P: Parse, Q: Parse<Input = P::Input, Error = P::Error>
    requires
        pairing.left == dropping.left,
        pairing.right == dropping.right,
    ensures
        dropping.yields(src, at, Ok(second), end) <==> exists|first: P::Output| #[trigger]
            pairing.yields(src, at, Ok((first, second)), end),
        dropping.yields(src, at, Err(error), end) <==> pairing.yields(src, at, Err(error), end),
{
    if dropping.yields(src, at, Ok(second), end) {
        let first = choose|first: P::Output| #[trigger]
            reads_in_sequence(dropping.left, dropping.right, src, at, first, second, end);
        assert(pairing.yields(src, at, Ok((first, second)), end));
    }
    if exists|first: P::Output| #[trigger] pairing.yields(src, at, Ok((first, second)), end) {
        let first = choose|first: P::Output| #[trigger]
            pairing.yields(src, at, Ok((first, second)), end);
        assert(reads_in_sequence(dropping.left, dropping.right, src, at, first, second, end));
    }
}

// Optionality

/// An optional parser never fails.
pub proof fn lemma_maybe_never_fails<P: Parse>(
    parser: Maybe<P>,
    src: Seq<<P::Input as TokenStream>::Token>,
    at: nat,
    res: Result<Option<P::Output>, P::Error>,
    end: nat,
)
    requires
        parser.yields(src, at, res, end),
    ensures
        res is Ok,
{
}

/// Where the inner parser fails, the optional one succeeds with `None` and
/// consumes nothing; and it gives `None` in no other case.
pub proof fn lemma_maybe_absent<P: Parse>(
    parser: Maybe<P>,
    src: Seq<<P::Input as TokenStream>::Token>,
    at: nat,
    end: nat,
)
    ensures
        parser.yields(src, at, Ok(None), end) <==> end == at && may_fail(parser.inner, src, at),
{
}

/// Where the inner parser succeeds, the optional one gives its value and
/// consumes what it consumed.
pub proof fn lemma_maybe_present<P: Parse>(
    parser: Maybe<P>,
    src: Seq<<P::Input as TokenStream>::Token>,
    at: nat,
    value: P::Output,
    end: nat,
)
    ensures
        parser.yields(src, at, Ok(Some(value)), end) <==> parser.inner.yields(
            src,
            at,
            Ok(value),
            end,
        ),
{
}

// One or more

/// A repetition fails if and only if the first run of the inner parser
/// fails: it then fails with that run's error and consumes nothing.
pub proof fn lemma_rep_fails_with_first_run<P: Parse>(
    parser: Rep<P>,
    src: Seq<<P::Input as TokenStream>::Token>,
    at: nat,
    error: P::Error,
    end: nat,
)
    ensures
        parser.yields(src, at, Err(error), end) <==> end == at && fails_with(
            parser.inner,
            src,
            at,
            error,
        ),
{
}

/// A repetition that succeeds holds at least one value, and its first value
/// is what a first run of the inner parser, from the entry position, read.
pub proof fn lemma_rep_has_first_run<P: Parse>(
    parser: Rep<P>,
    src: Seq<<P::Input as TokenStream>::Token>,
    at: nat,
    values: Vec<P::Output>,
    end: nat,
)
    requires
        parser.yields(src, at, Ok(values), end),
    ensures
        values@.len() >= 1,
        exists|mid: nat| #[trigger] parser.inner.yields(src, at, Ok(values@[0]), mid),
{
    let cuts = choose|cuts: Seq<nat>|
        {
            &&& #[trigger] repeats(parser.inner, src, values@, cuts)
            &&& values@.len() >= 1
            &&& cuts[0] == at
            &&& cuts.last() == end
            &&& repetition_ends(parser.inner, src, cuts)
        };
    assert(parser.inner.yields(src, cuts[0], Ok(values@[0]), cuts[1]));
}

/// Where every success of the inner parser moves the cursor forward, a
/// repetition stops exactly where one more run fails: its values are what
/// as many successful runs in a row read, the first from the entry position,
/// each next one from where the one before stopped, and the run from where
/// the last one stopped fails and is not consumed.
pub proof fn lemma_rep_stops_at_first_failure<P: Parse>(
    parser: Rep<P>,
    src: Seq<<P::Input as TokenStream>::Token>,
    at: nat,
    values: Vec<P::Output>,
    end: nat,
)
    requires
        parser.yields(src, at, Ok(values), end),
        forall|from: nat, value: P::Output, to: nat| #[trigger]
            parser.inner.yields(src, from, Ok(value), to) ==> from < to,
    ensures
        exists|cuts: Seq<nat>|
            {
                &&& #[trigger] repeats(parser.inner, src, values@, cuts)
                &&& cuts[0] == at
                &&& cuts.last() == end
            },
        may_fail(parser.inner, src, end),
        at < end,
{
    let cuts = choose|cuts: Seq<nat>|
        {
            &&& #[trigger] repeats(parser.inner, src, values@, cuts)
            &&& values@.len() >= 1
            &&& cuts[0] == at
            &&& cuts.last() == end
            &&& repetition_ends(parser.inner, src, cuts)
        };
    let n = values@.len() as int;
    assert(parser.inner.yields(src, cuts[n - 1], Ok(values@[n - 1]), cuts[n - 1 + 1]));
    lemma_cuts_ascend(cuts, n - 1);
}

/// Positions that each lie before the next lie in ascending order.
proof fn lemma_cuts_ascend(cuts: Seq<nat>, k: int)
    requires
        0 <= k <= cuts.len() - 2,
        forall|i: int| 0 <= i < cuts.len() - 2 ==> #[trigger] cuts[i] < cuts[i + 1],
    ensures
        cuts[0] <= cuts[k],
    decreases k,
{
    if k > 0 {
        lemma_cuts_ascend(cuts, k - 1);
        assert(cuts[k - 1] < cuts[k - 1 + 1]);
    }
}

// Maximal munch

/// A maximal-munch parser that succeeds has read exactly the tokens from
/// the entry position up to where it stopped, and every one of them was
/// accepted by the test.
pub proof fn lemma_greedy_reads_accepted_run<M: Matcher>(
    parser: Greedy<M>,
    src: Seq<<M::Input as TokenStream>::Token>,
    at: nat,
    run: Vec<<M::Input as TokenStream>::Token>,
    end: nat,
)
    requires
        parser.yields(src, at, Ok(run), end),
    ensures
        at < end <= src.len(),
        run@ == src.subrange(at as int, end as int),
        forall|i: int| at <= i < end ==> parser.matcher.judges(#[trigger] src[i], true),
{
}

/// A maximal-munch parser reads the longest run there is: no stretch of
/// tokens from the entry position, none of which the test can reject,
/// reaches beyond where the parser stopped.
pub proof fn lemma_greedy_is_maximal<M: Matcher>(
    parser: Greedy<M>,
    src: Seq<<M::Input as TokenStream>::Token>,
    at: nat,
    run: Vec<<M::Input as TokenStream>::Token>,
    end: nat,
    reach: nat,
)
    requires
        parser.yields(src, at, Ok(run), end),
        at <= reach <= src.len(),
        forall|i: int| at <= i < reach ==> !parser.matcher.judges(#[trigger] src[i], false),
    ensures
        reach <= end,
{
    if end < reach {
        assert(!parser.matcher.judges(src[end as int], false));
    }
}

/// A maximal-munch parser fails only where the input ends at the entry
/// position or the test rejects the token there; it then consumes nothing
/// and reports the error of the test.
pub proof fn lemma_greedy_fails_on_first_token<M: Matcher>(
    parser: Greedy<M>,
    src: Seq<<M::Input as TokenStream>::Token>,
    at: nat,
    error: ParseError<<M::Input as TokenStream>::Token>,
    end: nat,
)
    ensures
        parser.yields(src, at, Err(error), end) <==> {
            &&& end == at
            &&& error == parser.matcher.complaint()
            &&& at < src.len() ==> parser.matcher.judges(src[at as int], false)
        },
{
}

// Left bias

/// Where the left alternative cannot fail, an alternation gives what the
/// left alternative gives, whatever the right one would have given.
pub proof fn lemma_or_is_left_biased<P, Q>(
    parser: Or<P, Q>,
    src: Seq<<P::Input as TokenStream>::Token>,
    at: nat,
    res: Result<P::Output, Q::Error>,
    end: nat,
) where P: Parse, Q: Parse<Input = P::Input, Output = P::Output>
    requires
        parser.yields(src, at, res, end),
        !may_fail(parser.left, src, at),
    ensures
        res is Ok,
        parser.left.yields(src, at, Ok(res->Ok_0), end),
{
}

/// Every success of the left alternative is a success of the alternation,
/// with the same value and the same consumption.
pub proof fn lemma_or_takes_left_success<P, Q>(
    parser: Or<P, Q>,
    src: Seq<<P::Input as TokenStream>::Token>,
    at: nat,
    value: P::Output,
    end: nat,
) where P: Parse, Q: Parse<Input = P::Input, Output = P::Output>
    requires
        parser.left.yields(src, at, Ok(value), end),
    ensures
        parser.yields(src, at, Ok(value), end),
{
}

/// An alternation fails only after both alternatives failed from the entry
/// position; it reports the error of the right one and consumes nothing.
pub proof fn lemma_or_fails_with_right<P, Q>(
    parser: Or<P, Q>,
    src: Seq<<P::Input as TokenStream>::Token>,
    at: nat,
    error: Q::Error,
    end: nat,
) where P: Parse, Q: Parse<Input = P::Input, Output = P::Output>
    ensures
        parser.yields(src, at, Err(error), end) <==> {
            &&& end == at
            &&& may_fail(parser.left, src, at)
            &&& fails_with(parser.right, src, at, error)
        },
{
}

// Transformation

/// A transformed parser fails exactly as its inner parser does: with the
/// same error, the cursor left at the same place.
pub proof fn lemma_map_keeps_failure<P, F>(
    parser: Mapped<P, F>,
    src: Seq<<P::Input as TokenStream>::Token>,
    at: nat,
    error: P::Error,
    end: nat,
) where P: Parse, F: Transform<P::Output>
    ensures
        parser.yields(src, at, Err(error), end) <==> parser.inner.yields(src, at, Err(error), end),
{
}

/// A transformed parser succeeds exactly where its inner parser does, the
/// cursor left at the same place, with a value that the function gives on
/// what the inner parser read.
pub proof fn lemma_map_applies_function<P, F>(
    parser: Mapped<P, F>,
    src: Seq<<P::Input as TokenStream>::Token>,
    at: nat,
    mapped: F::Output,
    end: nat,
) where P: Parse, F: Transform<P::Output>
    ensures
        parser.yields(src, at, Ok(mapped), end) <==> exists|value: P::Output|
            #![trigger parser.inner.yields(src, at, Ok(value), end)]
            parser.inner.yields(src, at, Ok(value), end) && parser.func.gives(value, mapped),
{
}

/// Where the function gives one value for each argument, the value of a
/// transformed parser is that function applied to the inner parser's value.
pub proof fn lemma_map_of_function<P, F>(
    parser: Mapped<P, F>,
    function: spec_fn(P::Output) -> F::Output,
    src: Seq<<P::Input as TokenStream>::Token>,
    at: nat,
    mapped: F::Output,
    end: nat,
) where P: Parse, F: Transform<P::Output>
    requires
        parser.yields(src, at, Ok(mapped), end),
        forall|value: P::Output, output: F::Output| #[trigger]
            parser.func.gives(value, output) ==> output == function(value),
    ensures
        exists|value: P::Output|
            #![trigger parser.inner.yields(src, at, Ok(value), end)]
            parser.inner.yields(src, at, Ok(value), end) && mapped == function(value),
{
}

} // verus!
