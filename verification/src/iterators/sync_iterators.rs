//! The handles of the three roles, and the detached handle.

pub mod cons_iter;
pub mod detached;
pub mod prod_iter;
pub mod work_iter;
