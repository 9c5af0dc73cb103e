//! The pixels of an image, brought into the form that textures have: red,
//! green, blue and alpha, with the colours not multiplied by alpha.

use vstd::prelude::*;

verus! {

/// The order of the channels of a pixel.
#[derive(Clone, Copy, Debug, PartialEq, Eq, Structural)]
pub enum PixelFormat {
    Rgba8,
    Bgra8,
    /// Any other format.
    Unsupported,
}

/// Whether the colours of a pixel are multiplied by its alpha.
#[derive(Clone, Copy, Debug, PartialEq, Eq, Structural)]
pub enum PixelAlpha {
    Straight,
    Premultiplied,
}

/// The number of bytes of an image.
pub open spec fn image_bytes(width: u32, height: u32) -> int {
    width * height * 4
}

/// Whether the bytes of an image can be counted.
pub fn image_bytes_fit(width: u32, height: u32) -> (result: bool)
    ensures
        result == (image_bytes(width, height) <= usize::MAX),
{
    assert(width * height <= 0xffff_ffff * 0xffff_ffff) by (nonlinear_arith)
        requires
            0 <= width <= 0xffff_ffff,
            0 <= height <= 0xffff_ffff,
    ;
    width as u128 * height as u128 * 4 <= usize::MAX as u128
}

/// A colour channel that was multiplied by `alpha`, divided by it again and
/// rounded to the nearest value.
pub open spec fn straightened(channel: u8, alpha: u8) -> int {
    if alpha == 0 {
        0
    } else if alpha == 255 {
        channel as int
    } else {
        let value = (channel * 255 + alpha as int / 2) / alpha as int;
        if value > 255 {
            255
        } else {
            value
        }
    }
}

/// Where in a pixel of the given format a channel is found.
pub open spec fn channel_place(format: PixelFormat, channel: int) -> int {
    if format == PixelFormat::Bgra8 && channel == 0 {
        2
    } else if format == PixelFormat::Bgra8 && channel == 2 {
        0
    } else {
        channel
    }
}

/// A channel of a pixel in the form that textures have.
pub open spec fn texture_channel(
    data: Seq<u8>,
    format: PixelFormat,
    alpha: PixelAlpha,
    pixel: int,
    channel: int,
) -> int {
    let value = data[pixel * 4 + channel_place(format, channel)];
    if channel < 3 && alpha == PixelAlpha::Premultiplied {
        straightened(value, data[pixel * 4 + 3])
    } else {
        value as int
    }
}

/// Whether `pixels` are those of an image in the form that textures have.
pub open spec fn is_texture_of(
    data: Seq<u8>,
    format: PixelFormat,
    alpha: PixelAlpha,
    pixels: Seq<u8>,
) -> bool {
    &&& pixels.len() == data.len()
    &&& forall|pixel: int, channel: int|
        #![trigger texture_channel(data, format, alpha, pixel, channel)]
        0 <= pixel && pixel * 4 + 4 <= data.len() && 0 <= channel < 4 ==> pixels[pixel * 4
            + channel] == texture_channel(data, format, alpha, pixel, channel)
}

fn straighten(channel: u8, alpha: u8) -> (result: u8)
    ensures
        result == straightened(channel, alpha),
{
    if alpha == 0 {
        return 0;
    }
    if alpha == 255 {
        return channel;
    }
    let value: u32 = (channel as u32 * 255 + alpha as u32 / 2) / alpha as u32;
    if value > 255 {
        255
    } else {
        value as u8
    }
}

/// The pixels of an image in the form that textures have; nothing where the
/// image is empty, its format is not known, or it has not as many bytes as its
/// size says.
pub fn texture_pixels(
    width: u32,
    height: u32,
    format: PixelFormat,
    alpha: PixelAlpha,
    data: &[u8],
) -> (result: Option<Vec<u8>>)
    requires
        image_bytes(width, height) <= usize::MAX,
    ensures
        result is Some <==> width != 0 && height != 0 && data@.len() == image_bytes(width, height)
            && format != PixelFormat::Unsupported,
        result matches Some(pixels) ==> is_texture_of(data@, format, alpha, pixels@),
{
    assert(width * height <= usize::MAX);
    let count: usize = width as usize * height as usize;
    let expected: usize = count * 4;
    if width == 0 || height == 0 || data.len() != expected {
        return None;
    }
    let swap = match format {
        PixelFormat::Rgba8 => false,
        PixelFormat::Bgra8 => true,
        PixelFormat::Unsupported => return None,
    };
    let mut pixels: Vec<u8> = Vec::new();
    let mut at: usize = 0;
    while at < count
        invariant
            at <= count,
            data@.len() == count * 4,
            count * 4 <= usize::MAX,
            swap == (format == PixelFormat::Bgra8),
            pixels@.len() == at * 4,
            forall|pixel: int, channel: int|
                #![trigger texture_channel(data@, format, alpha, pixel, channel)]
                0 <= pixel < at && 0 <= channel < 4 ==> pixels@[pixel * 4 + channel]
                    == texture_channel(data@, format, alpha, pixel, channel),
        decreases count - at,
    {
        let ghost before = pixels@;
        let base = at * 4;
        let last = data[base + 3];
        let mut red = data[base];
        let mut green = data[base + 1];
        let mut blue = data[base + 2];
        if swap {
            red = data[base + 2];
            blue = data[base];
        }
        if alpha == PixelAlpha::Premultiplied {
            red = straighten(red, last);
            green = straighten(green, last);
            blue = straighten(blue, last);
        }
        pixels.push(red);
        pixels.push(green);
        pixels.push(blue);
        pixels.push(last);
        assert forall|pixel: int, channel: int|
            #![trigger texture_channel(data@, format, alpha, pixel, channel)]
            0 <= pixel < at + 1 && 0 <= channel < 4 implies pixels@[pixel * 4 + channel]
            == texture_channel(data@, format, alpha, pixel, channel) by {
            if pixel < at {
                assert(pixels@[pixel * 4 + channel] == before[pixel * 4 + channel]);
            }
        }
        at += 1;
    }
    Some(pixels)
}

/// What a texture shows of a pixel that lets nothing through is the pixel
/// itself, and of one that lets everything through nothing.
pub proof fn opaque_and_clear_pixels_are_exact(channel: u8)
    ensures
        straightened(channel, 255) == channel,
        straightened(channel, 0) == 0,
{
}

/// Dividing by alpha undoes multiplying by it: a channel that was multiplied
/// and rounded to the nearest value comes back no further off than rounding
/// took it.
pub proof fn straightening_undoes_multiplying(channel: u8, alpha: u8, multiplied: u8)
    requires
        0 < alpha < 255,
        2 * multiplied * 255 <= 2 * channel * alpha + 255,
        2 * multiplied * 255 >= 2 * channel * alpha - 255,
    ensures
        2 * alpha * (straightened(multiplied, alpha) - channel) <= 255 + alpha,
        2 * alpha * (channel - straightened(multiplied, alpha)) <= 255 + alpha,
{
    let product: int = multiplied * 255 + alpha as int / 2;
    let value: int = product / alpha as int;
    assert(alpha * value <= product < alpha * value + alpha) by (nonlinear_arith)
        requires
            value == product / (alpha as int),
            alpha > 0,
            product >= 0,
    ;
    assert(2 * alpha * (value - channel) == 2 * (alpha * value) - 2 * (channel * alpha))
        by (nonlinear_arith);
    assert(2 * (channel * alpha) == 2 * channel * alpha) by (nonlinear_arith);
    assert(2 * alpha * (channel - value) == 2 * (channel * alpha) - 2 * (alpha * value))
        by (nonlinear_arith);
    if value > 255 {
        assert(2 * alpha * (255 - channel) <= 2 * alpha * (value - channel)) by (nonlinear_arith)
            requires
                value > 255,
                alpha > 0,
        ;
        assert(2 * alpha * (channel - 255) <= 0) by (nonlinear_arith)
            requires
                channel <= 255,
                alpha > 0,
        ;
    }
}

/// An image has four bytes for every pixel.
pub proof fn pixels_have_four_bytes(width: u32, height: u32)
    ensures
        image_bytes(width, height) == 4 * (width * height),
{
}

/// Where the colours are not multiplied by alpha, red, green, blue and alpha come
/// out as they went in: in the order of the bytes, or with red and blue swapped
/// where blue comes first.
pub proof fn straight_pixels_keep_their_colours(
    data: Seq<u8>,
    format: PixelFormat,
    pixels: Seq<u8>,
    pixel: int,
)
    requires
        format == PixelFormat::Rgba8 || format == PixelFormat::Bgra8,
        is_texture_of(data, format, PixelAlpha::Straight, pixels),
        0 <= pixel && pixel * 4 + 4 <= data.len(),
    ensures
        pixels.len() == data.len(),
        pixels[pixel * 4 + 1] == data[pixel * 4 + 1],
        pixels[pixel * 4 + 3] == data[pixel * 4 + 3],
        format == PixelFormat::Rgba8 ==> pixels[pixel * 4] == data[pixel * 4] && pixels[pixel * 4
            + 2] == data[pixel * 4 + 2],
        format == PixelFormat::Bgra8 ==> pixels[pixel * 4] == data[pixel * 4 + 2] && pixels[pixel
            * 4 + 2] == data[pixel * 4],
{
    let alpha = PixelAlpha::Straight;
    assert(pixels[pixel * 4 + 0] == texture_channel(data, format, alpha, pixel, 0));
    assert(pixels[pixel * 4 + 1] == texture_channel(data, format, alpha, pixel, 1));
    assert(pixels[pixel * 4 + 2] == texture_channel(data, format, alpha, pixel, 2));
    assert(pixels[pixel * 4 + 3] == texture_channel(data, format, alpha, pixel, 3));
}

/// Where the colours are multiplied by alpha, each of them is divided by the alpha
/// of its own pixel, and alpha stays as it is.
pub proof fn multiplied_pixels_are_divided(
    data: Seq<u8>,
    format: PixelFormat,
    pixels: Seq<u8>,
    pixel: int,
)
    requires
        format == PixelFormat::Rgba8 || format == PixelFormat::Bgra8,
        is_texture_of(data, format, PixelAlpha::Premultiplied, pixels),
        0 <= pixel && pixel * 4 + 4 <= data.len(),
    ensures
        ({
            let (red, blue) = if format == PixelFormat::Bgra8 {
                (data[pixel * 4 + 2], data[pixel * 4])
            } else {
                (data[pixel * 4], data[pixel * 4 + 2])
            };
            let alpha = data[pixel * 4 + 3];
            &&& pixels[pixel * 4] == straightened(red, alpha)
            &&& pixels[pixel * 4 + 1] == straightened(data[pixel * 4 + 1], alpha)
            &&& pixels[pixel * 4 + 2] == straightened(blue, alpha)
            &&& pixels[pixel * 4 + 3] == alpha
        }),
{
    let alpha = PixelAlpha::Premultiplied;
    assert(pixels[pixel * 4 + 0] == texture_channel(data, format, alpha, pixel, 0));
    assert(pixels[pixel * 4 + 1] == texture_channel(data, format, alpha, pixel, 1));
    assert(pixels[pixel * 4 + 2] == texture_channel(data, format, alpha, pixel, 2));
    assert(pixels[pixel * 4 + 3] == texture_channel(data, format, alpha, pixel, 3));
}

/// A channel is divided by alpha to the nearest value, and to the largest one
/// where that is too large.
pub proof fn division_is_to_the_nearest(channel: u8, alpha: u8)
    requires
        alpha > 0,
    ensures
        0 <= straightened(channel, alpha) <= 255,
        2 * (alpha * straightened(channel, alpha)) <= 2 * (255 * channel) + alpha,
        straightened(channel, alpha) < 255 ==> 2 * (alpha * straightened(channel, alpha)) + alpha
            >= 2 * (255 * channel),
{
    if alpha < 255 {
        let product: int = channel * 255 + alpha as int / 2;
        let value: int = product / alpha as int;
        assert(alpha * value <= product < alpha * value + alpha) by (nonlinear_arith)
            requires
                value == product / (alpha as int),
                alpha > 0,
                product >= 0,
        ;
        assert(value >= 0) by (nonlinear_arith)
            requires
                value == product / (alpha as int),
                alpha > 0,
                product >= 0,
        ;
        if value > 255 {
            assert(alpha * 255 <= alpha * value) by (nonlinear_arith)
                requires
                    value > 255,
                    alpha > 0,
            ;
        }
    } else {
        assert(alpha * straightened(channel, alpha) == 255 * channel);
    }
}

} // verus!
