//! Function values with contracts.
//!
//! The parsers take their tests and functions as values of the traits
//! below. Closures and plain functions have them, and so may any type of the
//! caller's own. A caller that is itself verified gives a type of its own,
//! whose contract is written out in the impl: the verifier does not learn
//! what type a closure returns, and so cannot see through a parser that
//! holds one.

use vstd::prelude::*;

verus! {

/// A boolean test of one token, with its contract.
///
/// Every closure and function from `&T` to `bool` is such a test; its
/// contract is then the one it was written with.
pub trait TokenTest<T> {
    /// The test can be called on `token`.
    spec fn testable(&self, token: T) -> bool;

    /// `verdict` is an answer that the test may give on `token`.
    spec fn answers(&self, token: T, verdict: bool) -> bool;

    fn accepts(&self, token: &T) -> (verdict: bool)
        requires
            self.testable(*token),
        ensures
            self.answers(*token, verdict),
    ;
}

impl<T, F: Fn(&T) -> bool> TokenTest<T> for F {
    open spec fn testable(&self, token: T) -> bool {
        call_requires(*self, (&token,))
    }

    open spec fn answers(&self, token: T, verdict: bool) -> bool {
        call_ensures(*self, (&token,), verdict)
    }

    fn accepts(&self, token: &T) -> (verdict: bool) {
        self(token)
    }
}

/// A function from `A` to `Output` that cannot fail, with its contract.
///
/// Every closure and function of one argument is such a function; its
/// contract is then the one it was written with.
pub trait Transform<A> {
    type Output;

    /// The function can be called on `input`.
    spec fn applicable(&self, input: A) -> bool;

    /// `output` is a value that the function may give on `input`.
    spec fn gives(&self, input: A, output: Self::Output) -> bool;

    fn apply(&self, input: A) -> (output: Self::Output)
        requires
            self.applicable(input),
        ensures
            self.gives(input, output),
    ;
}

impl<A, B, F: Fn(A) -> B> Transform<A> for F {
    type Output = B;

    open spec fn applicable(&self, input: A) -> bool {
        call_requires(*self, (input,))
    }

    open spec fn gives(&self, input: A, output: B) -> bool {
        call_ensures(*self, (input,), output)
    }

    fn apply(&self, input: A) -> (output: B) {
        self(input)
    }
}

/// A function that reads from a stream and may fail, with its contract.
///
/// Every closure and function that takes a stream by value, and hands back
/// a result together with the stream as it left it, is such a function; its
/// contract is then the one it was written with.
pub trait StreamFn<S> {
    type Value;

    type Error;

    /// The function can be called on `before`.
    spec fn runnable(&self, before: S) -> bool;

    /// Called on `before`, the function may give `res` and leave the stream
    /// as `after`.
    spec fn leaves(&self, before: S, res: Result<Self::Value, Self::Error>, after: S) -> bool;

    fn read(&self, stream: &mut S) -> (res: Result<Self::Value, Self::Error>)
        requires
            self.runnable(*old(stream)),
        ensures
            self.leaves(*old(stream), res, *final(stream)),
    ;
}

impl<S: Copy, R, E, F: Fn(S) -> (Result<R, E>, S)> StreamFn<S> for F {
    type Value = R;

    type Error = E;

    open spec fn runnable(&self, before: S) -> bool {
        call_requires(*self, (before,))
    }

    open spec fn leaves(&self, before: S, res: Result<R, E>, after: S) -> bool {
        call_ensures(*self, (before,), (res, after))
    }

    fn read(&self, stream: &mut S) -> (res: Result<R, E>) {
        let (res, after) = self(*stream);
        *stream = after;
        res
    }
}

} // verus!
