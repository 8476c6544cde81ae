//! The shared-lending adapter.

use vstd::prelude::*;

use crate::iter::Iterator;
use crate::lending_iter::LendingIterator;

verus! {

/// A lending producer that pairs each yielded item with shared access to
/// the wrapped producer: after an advance, `producer` is the reference
/// half of the lent pair, and the borrow checker makes the caller give
/// it up before the next advance.
pub struct Lend<I>(I);

impl<I> Lend<I> {
    /// The wrapped producer.
    pub closed spec fn inner(&self) -> I {
        self.0
    }

    /// Wraps `i`.
    pub fn new(i: I) -> (r: Self)
        ensures
            r.inner() == i,
    {
        Lend(i)
    }

    /// Shared access to the wrapped producer, valid until the next
    /// advance.
    pub fn producer(&self) -> (r: &I)
        ensures
            *r == self.inner(),
    {
        &self.0
    }
}

impl<I: Iterator> Lend<I> {
    /// One lending step: the next item paired with shared access to the
    /// wrapped producer, or the terminal signal. The pair's reference
    /// half lives only until the next advance — the borrow checker makes
    /// the caller give it up first.
    pub fn next_lent(&mut self) -> (r: Option<(&I, I::Item)>)
        ensures
            old(self).inner().remaining().len() == 0 ==> r is None
                && final(self).inner().remaining() == old(self).inner().remaining(),
            old(self).inner().remaining().len() > 0 ==> (r matches Some(pair)
                && *pair.0 == final(self).inner()
                && pair.1 == old(self).inner().remaining()[0]
                && final(self).inner().remaining()
                    == old(self).inner().remaining().skip(1)),
    {
        match self.0.next() {
            None => None,
            Some(item) => Some((&self.0, item)),
        }
    }
}

impl<I: Iterator> LendingIterator for Lend<I> {
    type Item = I::Item;

    /// Exactly the wrapped producer's remaining items.
    open spec fn remaining(&self) -> Seq<I::Item> {
        self.inner().remaining()
    }

    /// Advances the wrapped producer and yields what it yields.
    fn next(&mut self) -> (r: Option<I::Item>) {
        self.0.next()
    }
}

} // verus!
