//! The sequence-producer contract.

use vstd::prelude::*;

use crate::filter::{Filter, Predicate};
use crate::lend::Lend;
use crate::lend_mut::LendMut;
use crate::map::{Mapped, Transform};

verus! {

/// A sequence producer: yields its remaining items in order, one per call,
/// then answers the terminal signal (`None`) on every later call.
///
/// The spec view `remaining` is the sequence of items the producer will
/// still yield, in order.
pub trait Iterator: Sized {
    /// The type of the elements being iterated over.
    type Item;

    /// The items this producer will still yield, in order.
    spec fn remaining(&self) -> Seq<Self::Item>;

    /// Advances the producer: yields the head of `remaining`, or the
    /// terminal signal once `remaining` is empty. After the terminal
    /// signal, `remaining` stays empty, so every later call answers the
    /// terminal signal again.
    fn next(&mut self) -> (r: Option<Self::Item>)
        ensures
            old(self).remaining().len() == 0 ==> r is None
                && final(self).remaining() == old(self).remaining(),
            old(self).remaining().len() > 0 ==> r == Some(old(self).remaining()[0])
                && final(self).remaining() == old(self).remaining().skip(1),
    ;

    /// Advisory bounds on the number of items still to come: the lower
    /// bound never overstates, an upper bound, when given, never
    /// understates.
    fn size_hint(&self) -> (r: (usize, Option<usize>))
        ensures
            r.0 <= self.remaining().len(),
            r.1 matches Some(upper) ==> self.remaining().len() <= upper,
    {
        (0, None)
    }

    /// Wraps this producer and a transformation into a producer of the
    /// transformation's outputs. Consumes the producer.
    fn map<M: Transform<Self::Item>>(self, f: M) -> (r: Mapped<Self, M>)
        ensures
            r.stream() == self,
            r.func() == f,
    {
        Mapped::new(self, f)
    }

    /// Wraps this producer and a predicate into a producer of the items
    /// the predicate holds of. Consumes the producer.
    fn filter<Q: Predicate<Self::Item>>(self, predicate: Q) -> (r: Filter<Self, Q>)
        ensures
            r.inner() == self,
            r.pred() == predicate,
    {
        Filter::new(self, predicate)
    }

    /// Wraps this producer into one that lends shared access to it
    /// alongside each yielded item. Consumes the producer.
    fn lend(self) -> (r: Lend<Self>)
        ensures
            r.inner() == self,
    {
        Lend::new(self)
    }

    /// Wraps this producer into one that lends exclusive access to it
    /// alongside each yielded item. Consumes the producer.
    fn lend_mut(self) -> (r: LendMut<Self>)
        ensures
            r.inner() == self,
    {
        LendMut::new(self)
    }
}

} // verus!
