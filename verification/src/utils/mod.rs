//! Arithmetic shared by the operations.

pub mod math;
