//! What holds of every conversion.
//!
//! Each law speaks of [`converted`], the buffer that every converter is proved
//! to leave behind, for buffers that [`buffers_fit`] accepts.

use crate::model::{
    buffers_fit, converted, lookup, rgba_image, sample_index, supported, FALLBACK, OPAQUE,
};
use crate::sample::Sample;
use vstd::prelude::*;

verus! {

/// Converting again changes nothing: a second conversion of the same samples
/// with the same table, channel count and geometry, into the buffer that the
/// first one filled, leaves every byte as it is.
pub proof fn lemma_repeated_conversion_is_identical<T: Sample>(
    data: Seq<T>,
    lut: Seq<u8>,
    channels: u8,
    pixels: nat,
    before: Seq<u8>,
)
    requires
        buffers_fit(data.len(), pixels, channels, before.len()),
    ensures
        converted(
            data,
            lut,
            channels,
            pixels,
            converted(data, lut, channels, pixels, before),
        ) == converted(data, lut, channels, pixels, before),
{
    let once = converted(data, lut, channels, pixels, before);
    assert(converted(data, lut, channels, pixels, once) =~= once);
}

/// For a supported channel count the pixel bytes depend on the samples, the
/// table, the channel count and the geometry alone: whatever two buffers held
/// before, their first `4 * pixels` bytes are the same afterwards.
pub proof fn lemma_image_ignores_previous_contents<T: Sample>(
    data: Seq<T>,
    lut: Seq<u8>,
    channels: u8,
    pixels: nat,
    before_a: Seq<u8>,
    before_b: Seq<u8>,
)
    requires
        supported(channels),
        buffers_fit(data.len(), pixels, channels, before_a.len()),
        buffers_fit(data.len(), pixels, channels, before_b.len()),
    ensures
        ({
            let bytes = (4 * pixels) as int;
            converted(data, lut, channels, pixels, before_a).take(bytes) == converted(
                data,
                lut,
                channels,
                pixels,
                before_b,
            ).take(bytes)
        }),
{
    let bytes = (4 * pixels) as int;
    let image = rgba_image(data, lut, channels, pixels);
    assert(converted(data, lut, channels, pixels, before_a).take(bytes) =~= image);
    assert(converted(data, lut, channels, pixels, before_b).take(bytes) =~= image);
}

/// For a supported channel count the alpha byte of every pixel is opaque.
pub proof fn lemma_alpha_is_opaque<T: Sample>(
    data: Seq<T>,
    lut: Seq<u8>,
    channels: u8,
    pixels: nat,
    before: Seq<u8>,
    pixel: int,
)
    requires
        supported(channels),
        buffers_fit(data.len(), pixels, channels, before.len()),
        0 <= pixel < pixels,
    ensures
        converted(data, lut, channels, pixels, before)[4 * pixel + 3] == OPAQUE,
        OPAQUE == 255,
{
}

/// With one channel the red, green and blue bytes of a pixel are all the
/// looked-up byte of the pixel's sample.
pub proof fn lemma_mono_is_replicated<T: Sample>(
    data: Seq<T>,
    lut: Seq<u8>,
    pixels: nat,
    before: Seq<u8>,
    pixel: int,
)
    requires
        buffers_fit(data.len(), pixels, 1, before.len()),
        0 <= pixel < pixels,
    ensures
        ({
            let after = converted(data, lut, 1, pixels, before);
            let display = lookup(lut, data[pixel].value());
            &&& after[4 * pixel] == display
            &&& after[4 * pixel + 1] == display
            &&& after[4 * pixel + 2] == display
        }),
{
}

/// A sample whose value is no index of the table gives the fallback byte, 0,
/// in the colour byte that is looked up from it.
pub proof fn lemma_out_of_table_gives_fallback<T: Sample>(
    data: Seq<T>,
    lut: Seq<u8>,
    channels: u8,
    pixels: nat,
    before: Seq<u8>,
    pixel: int,
    lane: int,
)
    requires
        supported(channels),
        buffers_fit(data.len(), pixels, channels, before.len()),
        0 <= pixel < pixels,
        0 <= lane < 3,
        data[sample_index(channels, pixel, lane)].value() >= lut.len(),
    ensures
        converted(data, lut, channels, pixels, before)[4 * pixel + lane] == FALLBACK,
        FALLBACK == 0,
{
}

/// With three channels each colour byte of a pixel depends on the table and on
/// the one sample of that colour in that pixel: two inputs that agree on that
/// sample give the same byte there, however they differ elsewhere.
pub proof fn lemma_rgb_channels_are_independent<T: Sample>(
    data_a: Seq<T>,
    data_b: Seq<T>,
    lut: Seq<u8>,
    pixels: nat,
    before: Seq<u8>,
    pixel: int,
    lane: int,
)
    requires
        buffers_fit(data_a.len(), pixels, 3, before.len()),
        buffers_fit(data_b.len(), pixels, 3, before.len()),
        0 <= pixel < pixels,
        0 <= lane < 3,
        data_a[3 * pixel + lane].value() == data_b[3 * pixel + lane].value(),
    ensures
        converted(data_a, lut, 3, pixels, before)[4 * pixel + lane] == converted(
            data_b,
            lut,
            3,
            pixels,
            before,
        )[4 * pixel + lane],
        converted(data_a, lut, 3, pixels, before)[4 * pixel + lane] == lookup(
            lut,
            data_a[3 * pixel + lane].value(),
        ),
{
}

/// With three channels, changing the samples of one colour changes the bytes
/// of that colour only: where two inputs agree on every sample of the other two
/// colours, the two results agree on every byte that is not of colour `lane`.
pub proof fn lemma_changing_one_colour_changes_that_colour_only<T: Sample>(
    data_a: Seq<T>,
    data_b: Seq<T>,
    lut: Seq<u8>,
    pixels: nat,
    before: Seq<u8>,
    lane: int,
)
    requires
        buffers_fit(data_a.len(), pixels, 3, before.len()),
        buffers_fit(data_b.len(), pixels, 3, before.len()),
        0 <= lane < 3,
        forall|i: int|
            0 <= i < 3 * pixels && i % 3 != lane ==> (#[trigger] data_a[i]).value()
                == data_b[i].value(),
    ensures
        forall|k: int|
            0 <= k < before.len() && k % 4 != lane ==> #[trigger] converted(
                data_a,
                lut,
                3,
                pixels,
                before,
            )[k] == converted(data_b, lut, 3, pixels, before)[k],
{
    let after_a = converted(data_a, lut, 3, pixels, before);
    let after_b = converted(data_b, lut, 3, pixels, before);
    assert forall|k: int| 0 <= k < before.len() && k % 4 != lane implies #[trigger] after_a[k]
        == after_b[k] by {
        if k < 4 * pixels && k % 4 != 3 {
            let i = sample_index(3, k / 4, k % 4);
            assert(0 <= i < 3 * pixels && i % 3 == k % 4);
            assert(data_a[i].value() == data_b[i].value());
        }
    }
}

/// With a channel count other than 1 and 3 the buffer is left as it was,
/// whatever the samples, the table and the geometry are.
pub proof fn lemma_unsupported_channels_change_nothing<T: Sample>(
    data: Seq<T>,
    lut: Seq<u8>,
    channels: u8,
    pixels: nat,
    before: Seq<u8>,
)
    requires
        !supported(channels),
    ensures
        buffers_fit(data.len(), pixels, channels, before.len()),
        converted(data, lut, channels, pixels, before) == before,
{
}

/// A conversion keeps the buffer's length. For a supported channel count the
/// image is `4 * pixels` bytes long and stands at the buffer's start;
/// every byte behind it is left as it was.
pub proof fn lemma_only_the_image_is_written<T: Sample>(
    data: Seq<T>,
    lut: Seq<u8>,
    channels: u8,
    pixels: nat,
    before: Seq<u8>,
)
    requires
        buffers_fit(data.len(), pixels, channels, before.len()),
    ensures
        ({
            let after = converted(data, lut, channels, pixels, before);
            let image = rgba_image(data, lut, channels, pixels);
            &&& after.len() == before.len()
            &&& image.len() == 4 * pixels
            &&& supported(channels) ==> after.take(image.len() as int) == image
            &&& supported(channels) ==> forall|k: int|
                image.len() <= k < before.len() ==> after[k] == before[k]
        }),
{
    let after = converted(data, lut, channels, pixels, before);
    let image = rgba_image(data, lut, channels, pixels);
    if supported(channels) {
        assert(after.take(image.len() as int) =~= image);
    }
}

} // verus!
