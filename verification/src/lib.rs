//! Image sharpening by convolution with a difference-of-Gaussians
//! high-pass kernel, followed by a min/max normalization pass.
//!
//! Every pixel sample and every kernel weight is carried as the `u32`
//! bit pattern of an IEEE-754 binary32 value; the module [`fbits`]
//! provides the arithmetic on those bit patterns.

pub mod cache;
pub mod conv;
pub mod fbits;
pub mod filter;
pub mod kernel;
