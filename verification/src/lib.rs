//! Conversion of raw image samples into 8-bit RGBA display buffers through a
//! lookup table.
//!
//! A raw image holds one sample (mono) or three samples (RGB) per pixel, each an
//! unsigned integer of 8, 16 or 32 bits. A lookup table maps a raw sample value
//! to the byte that is shown for it. The converters walk the pixels in row-major
//! order and write four bytes for each: red, green, blue and a fully opaque
//! alpha.
//!
//! * [`sample`] says what a sample is.
//! * [`model`] states, as mathematical sequences, which bytes a conversion
//!   leaves in the output buffer.
//! * [`convert`] holds the converters, each proved to compute exactly that.
//! * [`laws`] proves what follows for every conversion: opaque alpha, grey
//!   pixels for mono input, the fallback byte, independent channels, untouched
//!   bytes.

use vstd::prelude::*;

pub mod sample;
pub mod model;
pub mod convert;
pub mod laws;

pub use convert::{
    generate_display_image, generate_display_image_u16, generate_display_image_u32,
    generate_display_image_u8,
};

verus! {

/// Adds two numbers whose sum fits in 64 bits.
pub fn add(left: u64, right: u64) -> (sum: u64)
    requires
        left + right <= u64::MAX,
    ensures
        sum == left + right,
{
    left + right
}

} // verus!
