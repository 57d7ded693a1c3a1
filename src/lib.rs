//! Element-wise vector arithmetic and matrix-vector products over
//! fixed-length arrays of integers, with their results stated over
//! mathematical integers.

pub mod laws;
pub mod model;
pub mod ops;
pub mod scalar;

pub use ops::{add, matrix_vec_multiply, scale, sub};
pub use scalar::Scalar;
