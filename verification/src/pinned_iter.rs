//! The self-referential ("pinned") variant of the protocol.
//!
//! A pinned producer is one whose internal state may refer into its own
//! storage. Here such self-references are modelled as indices into
//! storage the producer owns — the way [`crate::VecProducer`] keeps a
//! cursor into its own vector — so relocating the value is harmless and
//! an ordinary exclusive reference serves as the non-relocatable handle.
//! The contract is therefore word for word that of [`crate::Iterator`];
//! the variant keeps its own trait family so that interfaces which
//! promise never to relocate a producer mid-iteration can say so in
//! their types.

use vstd::prelude::*;

use crate::map::{map_fn, Transform};

verus! {

/// A sequence producer whose storage may be self-referential: same
/// contract as [`crate::Iterator`], driven through a handle that never
/// requires relocating the producer.
pub trait PinnedIterator: Sized {
    /// The type of the elements being iterated over.
    type Item;

    /// The items this producer will still yield, in order.
    spec fn remaining(&self) -> Seq<Self::Item>;

    /// Advances the producer: yields the head of `remaining`, or the
    /// terminal signal once `remaining` is empty, stably.
    fn next(&mut self) -> (r: Option<Self::Item>)
        ensures
            old(self).remaining().len() == 0 ==> r is None
                && final(self).remaining() == old(self).remaining(),
            old(self).remaining().len() > 0 ==> r == Some(old(self).remaining()[0])
                && final(self).remaining() == old(self).remaining().skip(1),
    ;

    /// Advisory bounds on the number of items still to come.
    fn size_hint(&self) -> (r: (usize, Option<usize>))
        ensures
            r.0 <= self.remaining().len(),
            r.1 matches Some(upper) ==> self.remaining().len() <= upper,
    {
        (0, None)
    }

    /// Wraps this producer and a transformation into a producer of the
    /// transformation's outputs. Consumes the producer.
    fn map<M: Transform<Self::Item>>(self, f: M) -> (r: PinnedMap<Self, M>)
        ensures
            r.stream() == self,
            r.func() == f,
    {
        PinnedMap::new(self, f)
    }
}

/// Conversion into a [`PinnedIterator`].
pub trait IntoPinnedIterator: Sized {
    /// The type of the elements being iterated over.
    type Item;

    /// Which kind of producer this converts into.
    type IntoIter: PinnedIterator<Item = Self::Item>;

    /// The items the produced producer will yield, in order.
    spec fn spec_items(self) -> Seq<Self::Item>;

    /// Creates a producer from a value.
    fn into_iter(self) -> (r: Self::IntoIter)
        ensures
            r.remaining() == self.spec_items(),
    ;
}

/// Every pinned producer converts to a pinned producer by the identity
/// conversion.
impl<I: PinnedIterator> IntoPinnedIterator for I {
    type Item = I::Item;

    type IntoIter = I;

    open spec fn spec_items(self) -> Seq<I::Item> {
        self.remaining()
    }

    fn into_iter(self) -> (r: I)
        ensures
            r == self,
    {
        self
    }
}

/// Conversion from a [`PinnedIterator`]: drains the producer fully and
/// builds a value holding exactly the items it yielded, in order.
pub trait FromPinnedIterator<A>: Sized {
    /// The ordered contents of the built value.
    spec fn collected(&self) -> Seq<A>;

    /// Builds a value from everything the producer yields, in producer
    /// order.
    fn from_iter<I: IntoPinnedIterator<Item = A>>(iter: I) -> (r: Self)
        ensures
            r.collected() == iter.spec_items(),
    ;
}

/// Drains anything pinned-sequence-like fully into a collection holding
/// exactly the items it yields, in order.
pub fn collect_pinned<I: IntoPinnedIterator, B: FromPinnedIterator<I::Item>>(iter: I) -> (r: B)
    ensures
        r.collected() == iter.spec_items(),
{
    B::from_iter(iter)
}

impl<T> FromPinnedIterator<T> for Vec<T> {
    open spec fn collected(&self) -> Seq<T> {
        self@
    }

    /// Drains the producer into a fresh vector, pre-sized from the upper
    /// size-hint bound when one is given.
    fn from_iter<I: IntoPinnedIterator<Item = T>>(iter: I) -> (r: Vec<T>) {
        let ghost items = iter.spec_items();
        let mut producer = iter.into_iter();
        let hint = producer.size_hint();
        let capacity: usize = match hint.1 {
            Some(upper) => upper,
            None => 0,
        };
        let mut output: Vec<T> = Vec::with_capacity(capacity);
        loop
            invariant
                output@ + producer.remaining() == items,
            ensures
                output@ == items,
            decreases producer.remaining().len(),
        {
            match producer.next() {
                Some(item) => {
                    proof {
                        assert(output@.push(item) + producer.remaining() =~= items);
                    }
                    output.push(item);
                },
                None => {
                    proof {
                        assert(output@ =~= items);
                    }
                    break;
                },
            }
        }
        output
    }
}

/// Extending a collection with the contents of a pinned producer.
pub trait PinnedExtend<A> {
    /// The ordered contents of the collection.
    spec fn contents(&self) -> Seq<A>;

    /// Appends everything the producer yields after the present contents,
    /// in producer order.
    fn extend<I: IntoPinnedIterator<Item = A>>(&mut self, iter: I)
        ensures
            final(self).contents() == old(self).contents() + iter.spec_items(),
    ;
}

impl<T> PinnedExtend<T> for Vec<T> {
    open spec fn contents(&self) -> Seq<T> {
        self@
    }

    /// Drains the producer onto the end of the vector, reserving room
    /// from the upper size-hint bound when one is given.
    fn extend<I: IntoPinnedIterator<Item = T>>(&mut self, iter: I) {
        let ghost start = self@;
        let ghost items = iter.spec_items();
        let mut producer = iter.into_iter();
        let hint = producer.size_hint();
        let additional: usize = match hint.1 {
            Some(upper) => upper,
            None => 0,
        };
        self.reserve(additional);
        loop
            invariant
                self@ + producer.remaining() == start + items,
            ensures
                self@ == start + items,
            decreases producer.remaining().len(),
        {
            match producer.next() {
                Some(item) => {
                    proof {
                        assert(self@.push(item) + producer.remaining() =~= start + items);
                    }
                    self.push(item);
                },
                None => {
                    proof {
                        assert(self@ =~= start + items);
                    }
                    break;
                },
            }
        }
    }
}

/// The transforming adapter for pinned producers: yields the
/// transformation's outputs on the wrapped producer's items, one output
/// per item, in the wrapped producer's order.
pub struct PinnedMap<I, F> {
    stream: I,
    f: F,
}

impl<I, F> PinnedMap<I, F> {
    /// The wrapped producer.
    pub closed spec fn stream(&self) -> I {
        self.stream
    }

    /// The transformation.
    pub closed spec fn func(&self) -> F {
        self.f
    }

    /// Wraps `stream` and `f`.
    pub fn new(stream: I, f: F) -> (r: Self)
        ensures
            r.stream() == stream,
            r.func() == f,
    {
        PinnedMap { stream, f }
    }
}

impl<I: PinnedIterator, F: Transform<I::Item>> PinnedIterator for PinnedMap<I, F> {
    type Item = F::Output;

    /// The wrapped producer's remaining items, each transformed.
    open spec fn remaining(&self) -> Seq<F::Output> {
        self.stream().remaining().map_values(map_fn(self.func()))
    }

    /// Advances the wrapped producer; on an item, yields the transform's
    /// output on it; on the terminal signal, propagates it without
    /// invoking the transformation.
    fn next(&mut self) -> (r: Option<F::Output>) {
        match self.stream.next() {
            None => None,
            Some(item) => {
                proof {
                    assert(self.remaining() =~= old(self).remaining().skip(1));
                }
                let out = self.f.apply(item);
                Some(out)
            },
        }
    }

    /// The wrapped producer's bounds: the transformation is one to one.
    fn size_hint(&self) -> (r: (usize, Option<usize>)) {
        self.stream.size_hint()
    }
}

} // verus!
