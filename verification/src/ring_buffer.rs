//! Buffers, their storage and the slot type.

pub mod storage;
pub mod variants;
pub mod wrappers;
