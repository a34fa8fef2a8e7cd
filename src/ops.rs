//! The arithmetic operators of `Vector`.
pub mod add;
pub mod div;
pub mod mul;
pub mod neg;
pub mod sub;
