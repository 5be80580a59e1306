//! The handles for use in futures.

pub mod async_trait;
pub mod cons_iter;
pub mod detached;
pub mod future;
pub mod prod_iter;
pub mod work_iter;
