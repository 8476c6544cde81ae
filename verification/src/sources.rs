//! Reference producers, transformations and predicates: concrete
//! implementations of the protocol for callers and tests.

use vstd::prelude::*;

use crate::filter::Predicate;
use crate::iter::Iterator;
use crate::map::Transform;
use crate::pinned_iter::PinnedIterator;

verus! {

/// A producer that yields a single item, then the terminal signal forever.
pub struct Once<T> {
    item: Option<T>,
}

impl<T> Once<T> {
    /// Makes a producer whose only item is `item`.
    pub fn new(item: T) -> (r: Self)
        ensures
            r.remaining() == seq![item],
    {
        Once { item: Some(item) }
    }
}

impl<T> Iterator for Once<T> {
    type Item = T;

    closed spec fn remaining(&self) -> Seq<T> {
        match self.item {
            Some(it) => seq![it],
            None => Seq::empty(),
        }
    }

    fn next(&mut self) -> (r: Option<T>) {
        self.item.take()
    }

    /// Exactly one item is left until the item is yielded, none after.
    fn size_hint(&self) -> (r: (usize, Option<usize>)) {
        match self.item {
            Some(_) => (1, Some(1)),
            None => (0, Some(0)),
        }
    }
}

/// A producer that yields the integers of a half-open range, in
/// increasing order, with an exact size hint.
pub struct RangeProducer {
    lo: usize,
    hi: usize,
}

impl RangeProducer {
    #[verifier::type_invariant]
    closed spec fn wf(&self) -> bool {
        self.lo <= self.hi
    }

    /// Makes a producer for the integers from `lo` up to, and not
    /// including, `hi`; empty when `hi` is not above `lo`.
    pub fn new(lo: usize, hi: usize) -> (r: Self)
        ensures
            lo <= hi ==> r.remaining() == Seq::new((hi - lo) as nat, |i: int| (lo + i) as usize),
            lo > hi ==> r.remaining() == Seq::<usize>::empty(),
    {
        let top: usize = if hi < lo {
            lo
        } else {
            hi
        };
        let r = RangeProducer { lo, hi: top };
        proof {
            if lo > hi {
                assert(r.remaining() =~= Seq::<usize>::empty());
            }
        }
        r
    }
}

impl Iterator for RangeProducer {
    type Item = usize;

    closed spec fn remaining(&self) -> Seq<usize> {
        Seq::new((self.hi - self.lo) as nat, |i: int| (self.lo + i) as usize)
    }

    fn next(&mut self) -> (r: Option<usize>) {
        proof {
            use_type_invariant(&*self);
        }
        if self.lo < self.hi {
            let v: usize = self.lo;
            self.lo = self.lo + 1;
            proof {
                assert(self.remaining() =~= old(self).remaining().skip(1));
            }
            Some(v)
        } else {
            None
        }
    }

    /// The exact count of integers left in the range.
    fn size_hint(&self) -> (r: (usize, Option<usize>)) {
        proof {
            use_type_invariant(&*self);
        }
        let n: usize = self.hi - self.lo;
        (n, Some(n))
    }
}

/// A producer that yields the items of a vector, front to back, with an
/// exact size hint.
pub struct VecProducer<T> {
    items: Vec<T>,
}

impl<T> VecProducer<T> {
    /// Makes a producer that yields `items` in order, whichever of the
    /// two contracts it is driven under.
    pub fn new(items: Vec<T>) -> (r: Self)
        ensures
            Iterator::remaining(&r) == items@,
            PinnedIterator::remaining(&r) == items@,
    {
        VecProducer { items }
    }
}

impl<T> Iterator for VecProducer<T> {
    type Item = T;

    closed spec fn remaining(&self) -> Seq<T> {
        self.items@
    }

    fn next(&mut self) -> (r: Option<T>) {
        if self.items.len() == 0 {
            None
        } else {
            let item = self.items.remove(0);
            proof {
                assert(self.items@ =~= old(self).items@.skip(1));
            }
            Some(item)
        }
    }

    /// The exact count of items left in the vector.
    fn size_hint(&self) -> (r: (usize, Option<usize>)) {
        let n: usize = self.items.len();
        (n, Some(n))
    }
}

/// The vector producer's cursor into its own storage is an index, not an
/// address, so relocating it is harmless: it satisfies the pinned
/// contract as it stands, with the same yields.
impl<T> PinnedIterator for VecProducer<T> {
    type Item = T;

    closed spec fn remaining(&self) -> Seq<T> {
        self.items@
    }

    fn next(&mut self) -> (r: Option<T>) {
        if self.items.len() == 0 {
            None
        } else {
            let item = self.items.remove(0);
            proof {
                assert(self.items@ =~= old(self).items@.skip(1));
            }
            Some(item)
        }
    }

    /// The exact count of items left in the vector.
    fn size_hint(&self) -> (r: (usize, Option<usize>)) {
        let n: usize = self.items.len();
        (n, Some(n))
    }
}

/// A transformation that scales an item by a constant factor, widening
/// so the product always fits.
pub struct ScaleBy {
    /// The factor each item is multiplied by.
    pub factor: u32,
}

impl Transform<u32> for ScaleBy {
    type Output = u64;

    open spec fn spec_apply(&self, a: u32) -> u64 {
        (a * self.factor) as u64
    }

    fn apply(&self, a: u32) -> (r: u64) {
        proof {
            assert((a as int) * (self.factor as int) <= 0xffff_ffff * 0xffff_ffff)
                by (nonlinear_arith)
                requires
                    a <= 0xffff_ffff,
                    self.factor <= 0xffff_ffff,
            ;
        }
        (a as u64) * (self.factor as u64)
    }
}

/// A predicate that holds of the even numbers.
pub struct EvenOnly;

impl Predicate<u32> for EvenOnly {
    open spec fn spec_test(&self, a: u32) -> bool {
        a % 2 == 0
    }

    fn test(&self, a: &u32) -> (r: bool) {
        *a % 2 == 0
    }
}

} // verus!
