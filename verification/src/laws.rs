//! The adapter laws, stated and proved once for every producer.

use vstd::prelude::*;

use crate::filter::{pred_fn, Filter, Predicate};
use crate::iter::Iterator;
use crate::map::{Mapped, Transform};

verus! {

/// Transforming-adapter law: the adapter yields one output per wrapped
/// item, in the wrapped producer's order — at every position, its item
/// is the transformation's output on the wrapped producer's item there.
/// With the collector's contract, collecting a transformed producer
/// therefore yields exactly the transforms of the original items.
pub proof fn lemma_transformed_remaining<I: Iterator, F: Transform<I::Item>>(m: Mapped<I, F>)
    ensures
        m.remaining().len() == m.stream().remaining().len(),
        forall|k: int| 0 <= k < m.remaining().len()
            ==> #[trigger] m.remaining()[k] == m.func().spec_apply(m.stream().remaining()[k]),
{
}

/// Filtering-adapter law: the adapter yields exactly the subsequence of
/// the wrapped producer's items the predicate holds of, keeping their
/// relative order — the yield is the wrapped sequence filtered by the
/// predicate, no yielded item fails the predicate, no passing item is
/// dropped, and the count never grows.
pub proof fn lemma_filtered_remaining<I: Iterator, P: Predicate<I::Item>>(f: Filter<I, P>)
    ensures
        f.remaining() == f.inner().remaining().filter(pred_fn(f.pred())),
        f.remaining().len() <= f.inner().remaining().len(),
        forall|k: int| 0 <= k < f.remaining().len()
            ==> f.pred().spec_test(#[trigger] f.remaining()[k]),
        forall|k: int| 0 <= k < f.inner().remaining().len()
            && f.pred().spec_test(#[trigger] f.inner().remaining()[k])
            ==> f.remaining().contains(f.inner().remaining()[k]),
{
    let p = pred_fn(f.pred());
    let s = f.inner().remaining();
    s.lemma_filter_len(p);
    assert forall|k: int| 0 <= k < f.remaining().len()
        implies f.pred().spec_test(#[trigger] f.remaining()[k]) by {
        s.lemma_filter_pred(p, k);
    }
    assert forall|k: int|
        0 <= k < s.len() && f.pred().spec_test(#[trigger] s[k])
        implies f.remaining().contains(s[k]) by {
        s.lemma_filter_contains(p, k);
    }
}

} // verus!
