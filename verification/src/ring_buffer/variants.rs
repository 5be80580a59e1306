//! The kinds of buffer.

pub mod async_rb;
pub mod local_rb;
pub mod ring_buffer_trait;
pub mod split;
