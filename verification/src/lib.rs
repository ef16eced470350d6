//! Value types of a compiler's intermediate representation.
//!
//! A value type says what kind of value an instruction computes: nothing,
//! a boolean, an integer or a floating point number, and, for SIMD values,
//! the width of a lane and the number of lanes. It is packed into one byte,
//! and every query and transformation is a constant-time operation on that
//! byte, proved against the model in [`shape`].
pub mod shape;
pub mod types;
pub mod laws;
pub mod text;
