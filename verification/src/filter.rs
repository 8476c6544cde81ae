//! The filtering adapter.

use vstd::prelude::*;

use crate::iter::Iterator;

verus! {

/// An item predicate, consulted by the filtering adapter. `spec_test` is
/// the mathematical predicate that the executable `test` decides; the
/// adapter's contract is stated over it.
pub trait Predicate<A> {
    /// What the predicate holds of.
    spec fn spec_test(&self, a: A) -> bool;

    /// Decides the predicate on one item.
    fn test(&self, a: &A) -> (r: bool)
        ensures
            r == self.spec_test(*a),
    ;
}

/// The predicate as a plain function on items, the form `Seq::filter`
/// takes.
pub open spec fn pred_fn<A, P: Predicate<A>>(p: P) -> spec_fn(A) -> bool {
    |x: A| p.spec_test(x)
}

/// A producer that yields exactly the wrapped producer's items for which
/// the predicate holds, keeping their relative order.
pub struct Filter<I, P> {
    iter: I,
    predicate: P,
}

impl<I, P> Filter<I, P> {
    /// The wrapped producer.
    pub closed spec fn inner(&self) -> I {
        self.iter
    }

    /// The predicate.
    pub closed spec fn pred(&self) -> P {
        self.predicate
    }

    /// Wraps `stream` and `predicate`.
    pub fn new(stream: I, predicate: P) -> (r: Self)
        ensures
            r.inner() == stream,
            r.pred() == predicate,
    {
        Filter { iter: stream, predicate }
    }
}

impl<I: Iterator, P: Predicate<I::Item>> Iterator for Filter<I, P> {
    type Item = I::Item;

    /// The subsequence of the wrapped producer's remaining items for
    /// which the predicate holds, in their original relative order.
    open spec fn remaining(&self) -> Seq<I::Item> {
        self.inner().remaining().filter(pred_fn(self.pred()))
    }

    /// Advances the wrapped producer until an item satisfies the
    /// predicate and yields it; propagates the terminal signal when the
    /// wrapped producer runs out first.
    #[verifier::loop_isolation(false)]
    fn next(&mut self) -> (r: Option<I::Item>) {
        loop
            invariant
                self.pred() == old(self).pred(),
                self.remaining() == old(self).remaining(),
            decreases self.inner().remaining().len(),
        {
            let ghost before = self.inner().remaining();
            match self.iter.next() {
                None => {
                    proof {
                        reveal(Seq::filter);
                    }
                    return None;
                },
                Some(item) => {
                    let keep = self.predicate.test(&item);
                    proof {
                        let pf = pred_fn::<I::Item, P>(self.pred());
                        assert(before =~= seq![item] + self.inner().remaining());
                        self.inner().remaining().lemma_filter_prepend(item, pf);
                        if pf(item) {
                            assert(old(self).remaining()
                                == seq![item] + self.remaining());
                            assert(self.remaining()
                                =~= old(self).remaining().skip(1));
                        }
                    }
                    if keep {
                        return Some(item);
                    }
                },
            }
        }
    }

    /// Inherits the wrapped producer's upper bound — filtering can only
    /// shrink the yield count — and gives no lower bound, since the
    /// predicate may reject every item.
    fn size_hint(&self) -> (r: (usize, Option<usize>)) {
        let hint = self.iter.size_hint();
        proof {
            self.inner().remaining().lemma_filter_len(pred_fn(self.pred()));
        }
        (0, hint.1)
    }
}

} // verus!
