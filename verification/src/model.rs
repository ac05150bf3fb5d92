//! What a conversion computes, stated over mathematical sequences.

use crate::sample::Sample;
use vstd::prelude::*;

verus! {

/// The byte written for a sample that the lookup table has no entry for.
pub const FALLBACK: u8 = 0;

/// The alpha byte of every converted pixel: fully opaque.
pub const OPAQUE: u8 = 255;

/// The displayed byte for a raw sample value: the table's entry at that index,
/// or [`FALLBACK`] where the table is too short to have one.
pub open spec fn lookup(lut: Seq<u8>, v: nat) -> u8 {
    if v < lut.len() {
        lut[v as int]
    } else {
        FALLBACK
    }
}

/// The channel counts that are converted: 1 (mono) and 3 (RGB).
pub open spec fn supported(channels: u8) -> bool {
    channels == 1 || channels == 3
}

/// Where in the input the sample stands from which colour `lane` (0 red,
/// 1 green, 2 blue) of pixel `pixel` is looked up: the pixel's only sample
/// where there is one channel, else the sample of that colour in the pixel's
/// interleaved triple.
pub open spec fn sample_index(channels: u8, pixel: int, lane: int) -> int {
    if channels == 1 {
        pixel
    } else {
        3 * pixel + lane
    }
}

/// Byte `k` of the RGBA image of `data`.
///
/// Byte `k` is lane `k % 4` of pixel `k / 4`. Lane 3 is the alpha byte; each
/// of the other three is the looked-up byte of the sample at [`sample_index`].
pub open spec fn rgba_byte<T: Sample>(data: Seq<T>, lut: Seq<u8>, channels: u8, k: int) -> u8 {
    let pixel = k / 4;
    let lane = k % 4;
    if lane == 3 {
        OPAQUE
    } else {
        lookup(lut, data[sample_index(channels, pixel, lane)].value())
    }
}

/// The RGBA image of the first `pixels` pixels of `data`: four bytes per pixel,
/// in the order of the input.
pub open spec fn rgba_image<T: Sample>(
    data: Seq<T>,
    lut: Seq<u8>,
    channels: u8,
    pixels: nat,
) -> Seq<u8> {
    Seq::new(4 * pixels, |k: int| rgba_byte(data, lut, channels, k))
}

/// The output buffer after a conversion, given what it held `before`.
///
/// For a supported channel count the image takes the place of the first
/// `4 * pixels` bytes and the rest of the buffer stays. For any other channel
/// count the whole buffer stays.
pub open spec fn converted<T: Sample>(
    data: Seq<T>,
    lut: Seq<u8>,
    channels: u8,
    pixels: nat,
    before: Seq<u8>,
) -> Seq<u8> {
    if supported(channels) {
        rgba_image(data, lut, channels, pixels) + before.skip(4 * pixels as int)
    } else {
        before
    }
}

/// Whether buffers of these lengths are large enough to convert `pixels`
/// pixels.
///
/// For a supported channel count the input holds a sample for every channel of
/// every pixel and the output has room for four bytes per pixel. For any other
/// channel count nothing is read or written, so every length will do.
pub open spec fn buffers_fit(data_len: nat, pixels: nat, channels: u8, output_len: nat) -> bool {
    supported(channels) ==> {
        &&& pixels * channels <= data_len
        &&& pixels * 4 <= output_len
    }
}

} // verus!
