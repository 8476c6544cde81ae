use producers::collect;
use producers::EvenOnly;
use producers::Iterator;
use producers::LendingIterator;
use producers::Once;
use producers::RangeProducer;
use producers::ScaleBy;
use producers::VecProducer;

#[test]
fn collect_preserves_items_and_order() {
    let p = VecProducer::new(vec![5u32, 1, 4, 1, 5]);
    let v: Vec<u32> = collect(p);
    assert_eq!(v, vec![5, 1, 4, 1, 5]);
}

#[test]
fn collect_empty_producer() {
    let p = VecProducer::new(Vec::<u32>::new());
    let v: Vec<u32> = collect(p);
    assert!(v.is_empty());
}

#[test]
fn transform_scales_each_item() {
    let p = VecProducer::new(vec![1u32, 2, 3]);
    let m = p.map(ScaleBy { factor: 10 });
    let v: Vec<u64> = collect(m);
    assert_eq!(v, vec![10, 20, 30]);
}

#[test]
fn filter_keeps_matching_items_in_order() {
    let p = VecProducer::new(vec![1u32, 2, 3, 4, 5]);
    let f = p.filter(EvenOnly);
    let v: Vec<u32> = collect(f);
    assert_eq!(v, vec![2, 4]);
}

#[test]
fn scenario_filter_even_then_scale_by_ten() {
    let p = VecProducer::new(vec![1u32, 2, 3, 4, 5]);
    let staged = p.filter(EvenOnly).map(ScaleBy { factor: 10 });
    let v: Vec<u64> = collect(staged);
    assert_eq!(v, vec![20, 40]);
}

#[test]
fn conversion_is_identity() {
    let p = VecProducer::new(vec![7u32, 8]);
    let q = producers::IntoIterator::into_iter(p);
    let v: Vec<u32> = collect(q);
    assert_eq!(v, vec![7, 8]);
}

#[test]
fn extend_appends_in_order() {
    let mut c: Vec<u32> = vec![1, 2];
    let p = VecProducer::new(vec![3u32, 4]);
    producers::Extend::extend(&mut c, p);
    assert_eq!(c, vec![1, 2, 3, 4]);
}

#[test]
fn extend_with_empty_producer_changes_nothing() {
    let mut c: Vec<u32> = vec![1, 2];
    let p = VecProducer::new(Vec::<u32>::new());
    producers::Extend::extend(&mut c, p);
    assert_eq!(c, vec![1, 2]);
}

#[test]
fn once_terminal_signal_is_stable() {
    let mut o = Once::new(9u32);
    assert_eq!(o.next(), Some(9));
    assert_eq!(o.next(), None);
    assert_eq!(o.next(), None);
}

#[test]
fn size_hint_brackets_realized_count() {
    let p = VecProducer::new(vec![1u32, 2, 3]);
    let hint = p.size_hint();
    let v: Vec<u32> = collect(p);
    assert_eq!(hint, (3, Some(3)));
    assert!(hint.0 <= v.len());
    assert!(v.len() <= hint.1.unwrap());

    let f = VecProducer::new(vec![1u32, 2, 3]).filter(EvenOnly);
    let filter_hint = f.size_hint();
    let kept: Vec<u32> = collect(f);
    assert_eq!(filter_hint, (0, Some(3)));
    assert!(filter_hint.0 <= kept.len());
    assert!(kept.len() <= filter_hint.1.unwrap());

    let o = Once::new(5u32);
    let once_hint = o.size_hint();
    let yielded: Vec<u32> = collect(o);
    assert_eq!(once_hint, (1, Some(1)));
    assert_eq!(yielded.len(), 1);
}

#[test]
fn range_yields_increasing_integers() {
    let r = RangeProducer::new(2, 6);
    assert_eq!(r.size_hint(), (4, Some(4)));
    let v: Vec<usize> = collect(r);
    assert_eq!(v, vec![2, 3, 4, 5]);
}

#[test]
fn range_empty_when_bounds_cross() {
    let r = RangeProducer::new(5, 3);
    let v: Vec<usize> = collect(r);
    assert!(v.is_empty());
}

#[test]
fn lend_gives_shared_access_between_yields() {
    let p = VecProducer::new(vec![1u32, 2]);
    let mut l = p.lend();
    assert_eq!(l.next(), Some(1));
    let inner = l.producer();
    assert_eq!(inner.size_hint(), (1, Some(1)));
    assert_eq!(l.next(), Some(2));
    assert_eq!(l.next(), None);
}

#[test]
fn lend_pair_shares_producer_with_item() {
    let p = VecProducer::new(vec![1u32, 2]);
    let mut l = p.lend();
    let (view, item) = l.next_lent().unwrap();
    assert_eq!(item, 1);
    assert_eq!(view.size_hint(), (1, Some(1)));
    assert_eq!(l.next_lent().map(|pair| pair.1), Some(2));
    assert!(l.next_lent().is_none());
}

#[test]
fn lend_mut_pair_allows_mutation_between_yields() {
    let p = VecProducer::new(vec![10u32, 20, 30]);
    let mut l = p.lend_mut();
    let (inner, item) = l.next_lent().unwrap();
    assert_eq!(item, 10);
    assert_eq!(inner.next(), Some(20));
    assert_eq!(l.next_lent().map(|pair| pair.1), Some(30));
    assert!(l.next_lent().is_none());
}

#[test]
fn lend_mut_gives_exclusive_access_between_yields() {
    let p = VecProducer::new(vec![10u32, 20, 30]);
    let mut l = p.lend_mut();
    assert_eq!(l.next(), Some(10));
    assert_eq!(l.producer().next(), Some(20));
    assert_eq!(l.next(), Some(30));
    assert_eq!(l.next(), None);
}
