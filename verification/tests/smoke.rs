use producers::collect;
use producers::collect_pinned;
use producers::Once;
use producers::VecProducer;

#[test]
fn iter_smoke() {
    let iter = VecProducer::new(vec![1u32, 2, 3]);
    let v: Vec<u32> = collect(iter);
    assert_eq!(v, vec![1, 2, 3]);
}

#[test]
fn lib_smoke() {
    let iter = Once::new(42u32);
    let v: Vec<u32> = collect(iter);
    assert_eq!(v, vec![42]);
}

#[test]
fn pinned_iter_smoke() {
    let iter = VecProducer::new(vec![1u32, 2, 3]);
    let v: Vec<u32> = collect_pinned(iter);
    assert_eq!(v, vec![1, 2, 3]);
}

#[test]
fn pinned_map_scales_items() {
    let p = VecProducer::new(vec![1u32, 2]);
    let m = producers::PinnedIterator::map(p, producers::ScaleBy { factor: 3 });
    let v: Vec<u64> = collect_pinned(m);
    assert_eq!(v, vec![3, 6]);
}

#[test]
fn pinned_extend_appends_in_order() {
    let mut c: Vec<u32> = vec![1, 2];
    let p = VecProducer::new(vec![3u32, 4]);
    producers::PinnedExtend::extend(&mut c, p);
    assert_eq!(c, vec![1, 2, 3, 4]);
}
