//! Extending a container with a sequence producer.

use vstd::prelude::*;

use crate::into_iterator::IntoIterator;
use crate::iter::Iterator;

verus! {

/// Extending a collection with the contents of a sequence producer:
/// drains the producer fully and appends its items, in order, after the
/// collection's present contents. `contents` is the collection's ordered
/// contents.
pub trait Extend<A> {
    /// The ordered contents of the collection.
    spec fn contents(&self) -> Seq<A>;

    /// Appends everything the producer yields after the present contents,
    /// in producer order.
    fn extend<I: IntoIterator<Item = A>>(&mut self, iter: I)
        ensures
            final(self).contents() == old(self).contents() + iter.spec_items(),
    ;
}

impl<T> Extend<T> for Vec<T> {
    open spec fn contents(&self) -> Seq<T> {
        self@
    }

    /// Drains the producer onto the end of the vector, reserving room
    /// from the upper size-hint bound when one is given.
    fn extend<I: IntoIterator<Item = T>>(&mut self, iter: I) {
        let ghost start = self@;
        let ghost items = iter.spec_items();
        let mut producer = iter.into_iter();
        let hint = producer.size_hint();
        let additional: usize = match hint.1 {
            Some(upper) => upper,
            None => 0,
        };
        self.reserve(additional);
        loop
            invariant
                self@ + producer.remaining() == start + items,
            ensures
                self@ == start + items,
            decreases producer.remaining().len(),
        {
            match producer.next() {
                Some(item) => {
                    proof {
                        assert(self@.push(item) + producer.remaining() =~= start + items);
                    }
                    self.push(item);
                },
                None => {
                    proof {
                        assert(self@ =~= start + items);
                    }
                    break;
                },
            }
        }
    }
}

} // verus!
