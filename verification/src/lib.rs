//! A single-producer, single-worker, single-consumer ring buffer whose index
//! protocol is proved.
//!
//! A producer appends items, an optional worker changes them in place behind the
//! producer, and a consumer reads or removes them behind the worker. Each role has
//! a handle of its own, which keeps the position of the role; the buffer is handed
//! to every operation of a handle.

pub mod iterators;
pub mod laws;
pub mod model;
pub mod ring_buffer;

pub use crate::iterators::async_iterators::async_trait::AsyncIterator;
pub use crate::iterators::async_iterators::cons_iter::AsyncConsIter;
pub use crate::iterators::async_iterators::detached::AsyncDetached;
pub use crate::iterators::async_iterators::future::{MRBFuture, Polled};
pub use crate::iterators::async_iterators::prod_iter::AsyncProdIter;
pub use crate::iterators::async_iterators::work_iter::AsyncWorkIter;
pub use crate::iterators::iterator_trait::{MRBIterator, MutableSlice, NonMutableSlice};
pub use crate::iterators::sync_iterators::cons_iter::ConsIter;
pub use crate::iterators::sync_iterators::detached::Detached;
pub use crate::iterators::sync_iterators::prod_iter::ProdIter;
pub use crate::iterators::sync_iterators::work_iter::{DetachedWorkIter, WorkIter};
pub use crate::model::ring_math::get_page_size_mul;
pub use crate::model::ring_view::Role;
pub use crate::ring_buffer::storage::heap::{AsyncHeapRB, HeapStorage, LocalHeapRB};
pub use crate::ring_buffer::storage::stack::{AsyncStackRB, LocalStackRB, StackStorage};
pub use crate::ring_buffer::storage::Storage;
pub use crate::ring_buffer::variants::async_rb::{AsyncMutRingBuf, WakerManager};
pub use crate::ring_buffer::variants::local_rb::LocalMutRingBuf;
pub use crate::ring_buffer::variants::ring_buffer_trait::{IterManager, MutRB};
pub use crate::ring_buffer::variants::split::{HeapSplit, StackSplit};
pub use crate::ring_buffer::wrappers::buf_ref::BufRef;
pub use crate::ring_buffer::wrappers::unsafe_sync_cell::UnsafeSyncCell;
