//! A fixed-width binary codec for a small tagged-union colour type,
//! together with a verified sorting routine and deterministic value
//! generators used to drive randomized testing from outside.

pub mod color;
pub mod gen;
pub mod sort;
