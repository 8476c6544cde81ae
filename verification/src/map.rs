//! The transforming adapter.

use vstd::prelude::*;

use crate::iter::Iterator;

verus! {

/// An item-by-item transformation, applied by the transforming adapter.
/// `spec_apply` is the mathematical function that the executable `apply`
/// computes; the adapter's contract is stated over it.
pub trait Transform<A> {
    /// The type of the transformed values.
    type Output;

    /// What the transformation computes.
    spec fn spec_apply(&self, a: A) -> Self::Output;

    /// Applies the transformation to one item.
    fn apply(&self, a: A) -> (r: Self::Output)
        ensures
            r == self.spec_apply(a),
    ;
}

/// The transformation as a plain function on items, the form
/// `Seq::map_values` takes.
pub open spec fn map_fn<A, F: Transform<A>>(f: F) -> spec_fn(A) -> F::Output {
    |x: A| f.spec_apply(x)
}

/// A producer that yields the transformation's outputs on the wrapped
/// producer's items: one output per item, in the wrapped producer's order.
pub struct Mapped<I, F> {
    stream: I,
    f: F,
}

impl<I, F> Mapped<I, F> {
    /// The wrapped producer.
    pub closed spec fn stream(&self) -> I {
        self.stream
    }

    /// The transformation.
    pub closed spec fn func(&self) -> F {
        self.f
    }

    /// Wraps `stream` and `f`.
    pub fn new(stream: I, f: F) -> (r: Self)
        ensures
            r.stream() == stream,
            r.func() == f,
    {
        Mapped { stream, f }
    }
}

impl<I: Iterator, F: Transform<I::Item>> Iterator for Mapped<I, F> {
    type Item = F::Output;

    /// The wrapped producer's remaining items, each transformed: the
    /// transformation changes the items, never their number or order.
    open spec fn remaining(&self) -> Seq<F::Output> {
        self.stream().remaining().map_values(map_fn(self.func()))
    }

    /// Advances the wrapped producer; on an item, yields the transform's
    /// output on it; on the terminal signal, propagates it without
    /// invoking the transformation.
    fn next(&mut self) -> (r: Option<F::Output>) {
        match self.stream.next() {
            None => None,
            Some(item) => {
                proof {
                    assert(self.remaining() =~= old(self).remaining().skip(1));
                }
                let out = self.f.apply(item);
                Some(out)
            },
        }
    }

    /// The wrapped producer's bounds: the transformation is one to one,
    /// so the count of items to come is unchanged.
    fn size_hint(&self) -> (r: (usize, Option<usize>)) {
        self.stream.size_hint()
    }
}

} // verus!
