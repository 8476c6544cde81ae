//! Collecting a sequence producer into a container.

use vstd::prelude::*;

use crate::into_iterator::IntoIterator;
use crate::iter::Iterator;

verus! {

/// Conversion from a sequence producer: drains the producer fully and
/// builds a value holding exactly the items it yielded, in order.
/// `collected` is the ordered contents of the built value.
pub trait FromIterator<A>: Sized {
    /// The ordered contents of the built value.
    spec fn collected(&self) -> Seq<A>;

    /// Builds a value from everything the producer yields, in producer
    /// order.
    fn from_iter<I: IntoIterator<Item = A>>(iter: I) -> (r: Self)
        ensures
            r.collected() == iter.spec_items(),
    ;
}

/// Drains anything sequence-like fully into a collection holding exactly
/// the items it yields, in order.
pub fn collect<I: IntoIterator, B: FromIterator<I::Item>>(iter: I) -> (r: B)
    ensures
        r.collected() == iter.spec_items(),
{
    B::from_iter(iter)
}

impl<T> FromIterator<T> for Vec<T> {
    open spec fn collected(&self) -> Seq<T> {
        self@
    }

    /// Drains the producer into a fresh vector, pre-sized from the upper
    /// size-hint bound when one is given.
    fn from_iter<I: IntoIterator<Item = T>>(iter: I) -> (r: Vec<T>) {
        let ghost items = iter.spec_items();
        let mut producer = iter.into_iter();
        let hint = producer.size_hint();
        let capacity: usize = match hint.1 {
            Some(upper) => upper,
            None => 0,
        };
        let mut output: Vec<T> = Vec::with_capacity(capacity);
        loop
            invariant
                output@ + producer.remaining() == items,
            ensures
                output@ == items,
            decreases producer.remaining().len(),
        {
            match producer.next() {
                Some(item) => {
                    proof {
                        assert(output@.push(item) + producer.remaining() =~= items);
                    }
                    output.push(item);
                },
                None => {
                    proof {
                        assert(output@ =~= items);
                    }
                    break;
                },
            }
        }
        output
    }
}

} // verus!
