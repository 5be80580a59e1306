//! The role handles.

pub mod async_iterators;
pub mod iterator_trait;
pub mod sync_iterators;
