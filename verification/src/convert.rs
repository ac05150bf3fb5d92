//! The converters.

use crate::model::{buffers_fit, converted, lookup, rgba_byte, supported, FALLBACK, OPAQUE};
use crate::sample::Sample;
use vstd::prelude::*;

verus! {

/// Looks a raw sample value up in the table; a value past the table's end gives
/// the fallback byte.
pub fn lookup_or_fallback(lut: &[u8], index: usize) -> (display: u8)
    ensures
        display == lookup(lut@, index as nat),
{
    if index < lut.len() {
        lut[index]
    } else {
        FALLBACK
    }
}

/// Tells whether buffers of these lengths are large enough to convert an image
/// of `width` by `height` pixels: what every converter asks of its caller.
pub fn geometry_fits(
    data_len: usize,
    width: usize,
    height: usize,
    channels: u8,
    output_len: usize,
) -> (ok: bool)
    ensures
        ok == buffers_fit(data_len as nat, (width * height) as nat, channels, output_len as nat),
{
    if channels != 1 && channels != 3 {
        return true;
    }
    match width.checked_mul(height) {
        None => false,
        Some(pixel_count) => {
            let samples_fit = if channels == 1 {
                pixel_count <= data_len
            } else {
                pixel_count <= data_len / 3
            };
            samples_fit && pixel_count <= output_len / 4
        },
    }
}

/// Converts `width * height` pixels of `data` to RGBA in `output`.
///
/// With one channel each pixel has one sample, and its looked-up byte becomes
/// red, green and blue alike. With three channels each pixel has three
/// interleaved samples, looked up one by one. Alpha is always opaque. With any
/// other channel count `output` is left as it was.
///
/// The buffers must be large enough for the geometry, which [`geometry_fits`]
/// tests. Bytes of `output` behind the image are left as they were.
pub fn generate_display_image<T: Sample>(
    data: &[T],
    width: usize,
    height: usize,
    lut: &[u8],
    channels: u8,
    output: &mut [u8],
)
    requires
        buffers_fit(data@.len(), (width * height) as nat, channels, old(output)@.len()),
    ensures
        final(output)@ == converted(
            data@,
            lut@,
            channels,
            (width * height) as nat,
            old(output)@,
        ),
{
    if channels != 1 && channels != 3 {
        return ;
    }
    proof {
        // The image fits in the output, whose length is a `usize`: so is the
        // pixel count.
        let pixels = (width * height) as nat;
        assert(pixels * 4 <= output@.len() == output.len());
        assert(channels == 1 ==> pixels * channels == pixels) by (nonlinear_arith);
        assert(channels == 3 ==> pixels * channels == pixels * 3) by (nonlinear_arith);
    }
    let pixel_count: usize = width * height;
    let mut idx: usize = 0;
    while idx < pixel_count
        invariant
            supported(channels),
            idx <= pixel_count,
            channels == 1 ==> pixel_count <= data@.len(),
            channels == 3 ==> pixel_count * 3 <= data@.len(),
            pixel_count * 4 <= output@.len() <= usize::MAX,
            output@.len() == old(output)@.len(),
            forall|k: int| 0 <= k < 4 * idx ==> output@[k] == rgba_byte(data@, lut@, channels, k),
            forall|k: int| 4 * idx <= k < output@.len() ==> output@[k] == old(output)@[k],
        decreases pixel_count - idx,
    {
        let tgt_idx: usize = idx * 4;
        if channels == 1 {
            let display = lookup_or_fallback(lut, data[idx].index());
            output[tgt_idx] = display;
            output[tgt_idx + 1] = display;
            output[tgt_idx + 2] = display;
        } else {
            let base: usize = idx * 3;
            let r = lookup_or_fallback(lut, data[base].index());
            let g = lookup_or_fallback(lut, data[base + 1].index());
            let b = lookup_or_fallback(lut, data[base + 2].index());
            output[tgt_idx] = r;
            output[tgt_idx + 1] = g;
            output[tgt_idx + 2] = b;
        }
        output[tgt_idx + 3] = OPAQUE;
        idx += 1;
    }
    assert(output@ =~= converted(
        data@,
        lut@,
        channels,
        (width * height) as nat,
        old(output)@,
    ));
}

/// Converts an image of 8-bit samples; see [`generate_display_image`].
pub fn generate_display_image_u8(
    data: &[u8],
    width: usize,
    height: usize,
    lut: &[u8],
    channels: u8,
    output: &mut [u8],
)
    requires
        buffers_fit(data@.len(), (width * height) as nat, channels, old(output)@.len()),
    ensures
        final(output)@ == converted(
            data@,
            lut@,
            channels,
            (width * height) as nat,
            old(output)@,
        ),
{
    generate_display_image(data, width, height, lut, channels, output)
}

/// Converts an image of 16-bit samples; see [`generate_display_image`].
pub fn generate_display_image_u16(
    data: &[u16],
    width: usize,
    height: usize,
    lut: &[u8],
    channels: u8,
    output: &mut [u8],
)
    requires
        buffers_fit(data@.len(), (width * height) as nat, channels, old(output)@.len()),
    ensures
        final(output)@ == converted(
            data@,
            lut@,
            channels,
            (width * height) as nat,
            old(output)@,
        ),
{
    generate_display_image(data, width, height, lut, channels, output)
}

/// Converts an image of 32-bit samples; see [`generate_display_image`].
pub fn generate_display_image_u32(
    data: &[u32],
    width: usize,
    height: usize,
    lut: &[u8],
    channels: u8,
    output: &mut [u8],
)
    requires
        buffers_fit(data@.len(), (width * height) as nat, channels, old(output)@.len()),
    ensures
        final(output)@ == converted(
            data@,
            lut@,
            channels,
            (width * height) as nat,
            old(output)@,
        ),
{
    generate_display_image(data, width, height, lut, channels, output)
}

} // verus!
