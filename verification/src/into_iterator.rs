//! Conversion into a sequence producer.

use vstd::prelude::*;

use crate::iter::Iterator;

verus! {

/// Conversion into an [`Iterator`]: lets an interface accept anything
/// sequence-like. `spec_items` is the sequence of items the produced
/// producer will yield.
pub trait IntoIterator: Sized {
    /// The type of the elements being iterated over.
    type Item;

    /// Which kind of producer this converts into.
    type IntoIter: Iterator<Item = Self::Item>;

    /// The items the produced producer will yield, in order.
    spec fn spec_items(self) -> Seq<Self::Item>;

    /// Creates a producer from a value.
    fn into_iter(self) -> (r: Self::IntoIter)
        ensures
            r.remaining() == self.spec_items(),
    ;
}

/// Every producer converts to a producer by the identity conversion:
/// the result is the very same value, so it behaves exactly as the
/// original did.
impl<I: Iterator> IntoIterator for I {
    type Item = I::Item;

    type IntoIter = I;

    open spec fn spec_items(self) -> Seq<I::Item> {
        self.remaining()
    }

    fn into_iter(self) -> (r: I)
        ensures
            r == self,
    {
        self
    }
}

} // verus!
