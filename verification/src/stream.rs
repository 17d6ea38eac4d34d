use vstd::prelude::*;

verus! {

/// An ordered input with a read cursor that can be saved and put back.
///
/// A stream is modelled by the sequence of all its tokens, which never
/// changes, and the index of the token that is read next.
pub trait TokenStream {
    type Token;

    /// All tokens of the input, read or unread.
    spec fn source(&self) -> Seq<Self::Token>;

    /// The index in `source()` of the next token to read.
    spec fn cursor(&self) -> nat;

    /// Validity of the stream; every operation asks for it and keeps it.
    spec fn inv(&self) -> bool;

    /// The cursor of a valid stream lies within the input, and every
    /// position of the input fits a `usize`.
    proof fn lemma_cursor_in_bounds(&self)
        requires
            self.inv(),
        ensures
            self.cursor() <= self.source().len() <= usize::MAX,
    ;

    /// The token at the cursor, or `None` at the end of the input. The
    /// stream is left as it was.
    fn peek(&self) -> (token: Option<Self::Token>)
        requires
            self.inv(),
        ensures
            self.cursor() < self.source().len() ==> token == Some(
                self.source()[self.cursor() as int],
            ),
            self.cursor() >= self.source().len() ==> token is None,
    ;

    /// The token that `peek` would give; the cursor moves past it. At the
    /// end of the input nothing moves.
    fn advance(&mut self) -> (token: Option<Self::Token>)
        requires
            old(self).inv(),
        ensures
            final(self).inv(),
            final(self).source() == old(self).source(),
            old(self).cursor() < old(self).source().len() ==> {
                &&& token == Some(old(self).source()[old(self).cursor() as int])
                &&& final(self).cursor() == old(self).cursor() + 1
            },
            old(self).cursor() >= old(self).source().len() ==> {
                &&& token is None
                &&& final(self).cursor() == old(self).cursor()
            },
    ;

    /// The current position, to hand to `restore` later.
    fn checkpoint(&self) -> (position: usize)
        requires
            self.inv(),
        ensures
            position == self.cursor(),
    ;

    /// Puts the cursor at `position`. The tokens from there on are read
    /// again exactly as they were read the first time.
    fn restore(&mut self, position: usize)
        requires
            old(self).inv(),
            position <= old(self).source().len(),
        ensures
            final(self).inv(),
            final(self).source() == old(self).source(),
            final(self).cursor() == position,
    ;
}

/// The unread part of the input of `stream`.
pub open spec fn residual<S: TokenStream>(stream: S) -> Seq<S::Token> {
    stream.source().skip(stream.cursor() as int)
}

/// A stream over a borrowed slice. Saving and restoring a position copies
/// one index.
pub struct SliceStream<'a, T> {
    items: &'a [T],
    next: usize,
}

impl<'a, T> Clone for SliceStream<'a, T> {
    fn clone(&self) -> (twin: Self)
        ensures
            twin == *self,
    {
        SliceStream { items: self.items, next: self.next }
    }
}

impl<'a, T> Copy for SliceStream<'a, T> {

}

impl<'a, T: Copy> SliceStream<'a, T> {
    /// A stream that reads `items` from its first token.
    pub fn new(items: &'a [T]) -> (stream: Self)
        ensures
            stream.inv(),
            stream.source() == items@,
            stream.cursor() == 0,
    {
        SliceStream { items, next: 0 }
    }

    /// The unread part of the slice.
    pub fn remaining(&self) -> (rest: &'a [T])
        requires
            self.inv(),
        ensures
            rest@ == residual(*self),
    {
        vstd::slice::slice_subrange(self.items, self.next, self.items.len())
    }
}

impl<'a, T: Copy> TokenStream for SliceStream<'a, T> {
    type Token = T;

    closed spec fn source(&self) -> Seq<T> {
        self.items@
    }

    closed spec fn cursor(&self) -> nat {
        self.next as nat
    }

    closed spec fn inv(&self) -> bool {
        self.next <= self.items@.len()
    }

    proof fn lemma_cursor_in_bounds(&self) {
        assert(vstd::slice::spec_slice_len(self.items) == self.items@.len());
    }

    fn peek(&self) -> (token: Option<T>) {
        if self.next < self.items.len() {
            Some(self.items[self.next])
        } else {
            None
        }
    }

    fn advance(&mut self) -> (token: Option<T>) {
        if self.next < self.items.len() {
            let token = self.items[self.next];
            self.next = self.next + 1;
            Some(token)
        } else {
            None
        }
    }

    fn checkpoint(&self) -> (position: usize) {
        self.next
    }

    fn restore(&mut self, position: usize) {
        self.next = position;
    }
}

} // verus!
