//! The lending-producer contract.

use vstd::prelude::*;

verus! {

/// A lending producer: advances like a sequence producer, but each yield
/// comes with access to the producer itself — shared or exclusive,
/// depending on the adapter — that the caller must give up before the
/// next request. The borrow checker enforces that scope; the yielded
/// items follow the same contract as [`crate::Iterator`].
pub trait LendingIterator: Sized {
    /// The type of the elements being iterated over.
    type Item;

    /// The items this producer will still yield, in order.
    spec fn remaining(&self) -> Seq<Self::Item>;

    /// Advances the producer: yields the head of `remaining`, or the
    /// terminal signal once `remaining` is empty, stably.
    fn next(&mut self) -> (r: Option<Self::Item>)
        ensures
            old(self).remaining().len() == 0 ==> r is None
                && final(self).remaining() == old(self).remaining(),
            old(self).remaining().len() > 0 ==> r == Some(old(self).remaining()[0])
                && final(self).remaining() == old(self).remaining().skip(1),
    ;
}

} // verus!
