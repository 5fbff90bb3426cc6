//! Light descriptors for a physically based renderer and the fixed-layout
//! blocks that carry them to the GPU.
//!
//! Every scalar in this crate is held as the 32-bit word that encodes it in
//! IEEE-754 binary32. The crate orders, validates and lays out such words; it
//! never multiplies or divides them. The products that a shader block holds
//! (colour times intensity, the inverse square of a range) are handed in by
//! the caller, who owns the arithmetic.

pub mod binary32;
pub mod color;
pub mod light;
pub mod math;
pub mod uniform;
