//! Layout kernel for 3D and 4D graphics math.
//!
//! Vectors and square matrices are stored as the bit patterns of their
//! single-precision components. Everything here moves and places components
//! exactly; rounding arithmetic is left to the caller.

pub mod document;
pub mod scalar;
pub mod vector3;
pub mod vector4;
pub mod matrix3;
pub mod matrix4;
