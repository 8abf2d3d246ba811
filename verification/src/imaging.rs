//! The image codecs that the library relies on. Each function here hands its
//! arguments to a routine of the `image` or `base64` crate; what it returns is
//! taken on trust and given a name that the rest of the library builds on.

use vstd::prelude::*;

verus! {

/// How a resized image is sampled from its source.
#[derive(Clone, Copy, Debug, PartialEq, Eq, Structural)]
pub enum ResizeFilter {
    /// Each target pixel takes the value of the nearest source pixel.
    Nearest,
    /// Each target pixel is a linear blend of the source pixels around it.
    Triangle,
}

#[verifier::external_type_specification]
#[verifier::external_body]
pub struct ExImageError(image::ImageError);

/// The longest side of an image that is resampled, of the source as of the
/// result. The crate places each sample with 32-bit floats, which hold 24
/// bits: with sides up to this, a position is off by less than a hundredth
/// of a pixel, so that the pixel nearest to a sample always lies in its
/// window and has a weight above zero. With longer sides every weight of a
/// window can come out as zero, and the resampler breaks down.
pub const MAX_RESAMPLE_SIDE: u32 = 65_536;

/// Sizes that the resampler can work on: no side is too long for its
/// arithmetic, and neither its intermediate image of 32-bit float channels
/// nor its result outgrows what a vector may hold.
pub open spec fn resample_fits(width: u32, height: u32, new_width: u32, new_height: u32) -> bool {
    &&& width <= MAX_RESAMPLE_SIDE
    &&& height <= MAX_RESAMPLE_SIDE
    &&& new_width <= MAX_RESAMPLE_SIDE
    &&& new_height <= MAX_RESAMPLE_SIDE
    &&& 16 * width * new_height <= isize::MAX
    &&& 4 * new_width * new_height <= isize::MAX
}

/// The RGBA bytes that `image::imageops::resize` gives for an RGBA image of
/// `width` x `height` resized to `new_width` x `new_height`, with the
/// triangle filter if `smooth`, with the nearest pixel otherwise.
pub uninterp spec fn resampled_pixels(
    pixels: Seq<u8>,
    width: u32,
    height: u32,
    new_width: u32,
    new_height: u32,
    smooth: bool,
) -> Seq<u8>;

/// The most pixels of a source image that the thumbnail is made from. The
/// crate adds up the channels of a block of source pixels in 32 bits; with
/// no more pixels than this in the whole image, no block can overflow.
pub const THUMBNAIL_SOURCE_LIMIT: u32 = 16_777_216;

/// The RGBA bytes, the width and the height of the image that
/// `DynamicImage::thumbnail` gives for an RGBA image of `width` x `height`
/// fitted into a box of `box_width` x `box_height`.
pub uninterp spec fn thumbnail_image(
    pixels: Seq<u8>,
    width: u32,
    height: u32,
    box_width: u32,
    box_height: u32,
) -> (Seq<u8>, u32, u32);

/// A side of the box, or one pixel where the box has none.
pub open spec fn box_side(side: u32) -> int {
    if side > 1 {
        side as int
    } else {
        1
    }
}

/// A source and a box that the thumbnail can be made for: the source holds
/// few enough pixels for the sums and has no side too long for the
/// arithmetic, the box is no larger than the source, and an image that fills
/// the box does not outgrow what a vector may hold.
pub open spec fn thumbnail_fits(width: u32, height: u32, box_width: u32, box_height: u32) -> bool {
    &&& width * height <= THUMBNAIL_SOURCE_LIMIT
    &&& width <= MAX_RESAMPLE_SIDE
    &&& height <= MAX_RESAMPLE_SIDE
    &&& box_width <= width
    &&& box_height <= height
    &&& 4 * box_side(box_width) * box_side(box_height) <= isize::MAX
}

/// The PNG file that `image`'s encoder writes for an RGBA image, or `None`
/// where the encoder reports an error.
pub uninterp spec fn png_encoded(pixels: Seq<u8>, width: u32, height: u32) -> Option<Seq<u8>>;

/// The text that `base64`'s standard engine gives for a run of bytes.
pub uninterp spec fn base64_text(bytes: Seq<u8>) -> Seq<char>;

/// Calls `image::imageops::resize` on the RGBA image that `pixels` holds.
/// Trusted: the result is the image that the crate computes, and it has
/// exactly the size asked for.
#[verifier::external_body]
pub(crate) fn resample(
    pixels: &Vec<u8>,
    width: u32,
    height: u32,
    new_width: u32,
    new_height: u32,
    filter: ResizeFilter,
) -> (out: Vec<u8>)
    requires
        width > 0,
        height > 0,
        pixels.len() == 4 * width * height,
        resample_fits(width, height, new_width, new_height),
    ensures
        out@ == resampled_pixels(
            pixels@,
            width,
            height,
            new_width,
            new_height,
            filter == ResizeFilter::Triangle,
        ),
        out.len() == 4 * new_width * new_height,
{
    let kind = match filter {
        ResizeFilter::Nearest => image::imageops::FilterType::Nearest,
        ResizeFilter::Triangle => image::imageops::FilterType::Triangle,
    };
    let source = image::ImageBuffer::<image::Rgba<u8>, &[u8]>::from_raw(width, height, pixels)
        .unwrap();
    image::imageops::resize(&source, new_width, new_height, kind).into_raw()
}

/// Calls `DynamicImage::thumbnail` on the RGBA image that `pixels` holds.
/// Trusted: the image that comes back is a function of the source and the
/// box alone; each of its sides is at least one pixel and no longer than the
/// side of the box, or one pixel where the box has none; and it holds four
/// bytes for each pixel.
#[verifier::external_body]
pub(crate) fn thumbnail(
    pixels: &Vec<u8>,
    width: u32,
    height: u32,
    box_width: u32,
    box_height: u32,
) -> (out: (Vec<u8>, u32, u32))
    requires
        width > 0,
        height > 0,
        pixels.len() == 4 * width * height,
        thumbnail_fits(width, height, box_width, box_height),
    ensures
        (out.0@, out.1, out.2) == thumbnail_image(pixels@, width, height, box_width, box_height),
        1 <= out.1 <= box_side(box_width),
        1 <= out.2 <= box_side(box_height),
        out.0.len() == 4 * out.1 * out.2,
{
    let source = image::RgbaImage::from_raw(width, height, pixels.clone()).unwrap();
    let small = image::DynamicImage::ImageRgba8(source).thumbnail(box_width, box_height);
    let small = small.into_rgba8();
    let (small_width, small_height) = small.dimensions();
    (small.into_raw(), small_width, small_height)
}

/// Calls `image`'s PNG encoder on the RGBA image that `pixels` holds.
/// Trusted: the bytes written are a function of the image alone, and so is
/// whether the encoder reports an error.
#[verifier::external_body]
pub(crate) fn png_encode(pixels: &Vec<u8>, width: u32, height: u32) -> (out: Result<
    Vec<u8>,
    image::ImageError,
>)
    requires
        pixels.len() == 4 * width * height,
    ensures
        out.is_ok() == png_encoded(pixels@, width, height).is_some(),
        out matches Ok(bytes) ==> png_encoded(pixels@, width, height) == Some(bytes@),
{
    let mut bytes = Vec::new();
    let encoder = image::codecs::png::PngEncoder::new(&mut bytes);
    image::ImageEncoder::write_image(
        encoder,
        pixels,
        width,
        height,
        image::ExtendedColorType::Rgba8,
    )?;
    Ok(bytes)
}

/// The longest run of bytes that is encoded: its text, four characters for
/// every three bytes, is no longer than what a string may hold.
pub open spec fn longest_encodable() -> int {
    3 * (isize::MAX / 4)
}

/// Calls `encode` of `base64`'s standard engine.
/// Trusted: the text is a function of the bytes alone. The input is kept
/// short enough that the text fits a string.
#[verifier::external_body]
pub(crate) fn base64_encode(bytes: &Vec<u8>) -> (out: String)
    requires
        bytes.len() <= longest_encodable(),
    ensures
        out@ == base64_text(bytes@),
{
    base64::Engine::encode(&base64::engine::general_purpose::STANDARD, bytes)
}

} // verus!
