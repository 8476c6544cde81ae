//! A verified lazy-sequence protocol: producers that yield items one at a
//! time until a terminal signal, with adapters for conversion, collection,
//! extension, transformation, filtering and lending.
//!
//! The heart of the crate is the [`Iterator`] trait. Its specification view
//! `remaining` — the sequence of items still to come — pins down the whole
//! protocol: `next` yields exactly the head of `remaining`, the terminal
//! signal arrives exactly when `remaining` is empty and is stable from then
//! on, and `size_hint` brackets `remaining`'s length.

mod extend;
mod filter;
mod from_iterator;
mod into_iterator;
mod iter;
mod laws;
mod lend;
mod lend_mut;
mod lending_iter;
mod map;
mod pinned_iter;
mod sources;

pub use extend::Extend;
pub use filter::{pred_fn, Filter, Predicate};
pub use from_iterator::{collect, FromIterator};
pub use into_iterator::IntoIterator;
pub use iter::Iterator;
pub use laws::{lemma_filtered_remaining, lemma_transformed_remaining};
pub use lend::Lend;
pub use lend_mut::LendMut;
pub use lending_iter::LendingIterator;
pub use map::{map_fn, Mapped, Transform};
pub use pinned_iter::{collect_pinned, FromPinnedIterator, IntoPinnedIterator, PinnedExtend, PinnedIterator, PinnedMap};
pub use sources::{EvenOnly, Once, RangeProducer, ScaleBy, VecProducer};
