//! The slot type and the handle through which the roles reach a buffer.

pub mod buf_ref;
pub mod unsafe_sync_cell;
