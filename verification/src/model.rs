//! The mathematical model that the contracts of this crate are stated over.

pub mod ring_math;
pub mod ring_view;
