//! Bounded integers that make up a paging window.

pub mod constrained;
pub mod limit;
pub mod offset;
