//! A small three-dimensional vector type, generic over its scalar component type.
pub mod convert;
pub mod laws;
pub mod ops;
pub mod scalar;
pub mod vector;

pub use scalar::Scalar;
pub use vector::Vector;
