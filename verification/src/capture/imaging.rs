//! Image operations that are not verified here: resampling, colour
//! conversion and JPEG encoding through the `image` crate. Images cross
//! this boundary as raw pixel bytes with their dimensions.

use vstd::prelude::*;

verus! {

#[verifier::external_type_specification]
#[verifier::external_body]
pub struct ExImageError(image::ImageError);

/// The RGBA pixels of an image resampled to `new_width` by `new_height`
/// with the triangle filter.
pub uninterp spec fn triangle_resized(
    pixels: Seq<u8>,
    width: u32,
    height: u32,
    new_width: u32,
    new_height: u32,
) -> Seq<u8>;

/// The luminance of each pixel of an RGBA image, row by row.
pub uninterp spec fn luma8(pixels: Seq<u8>, width: u32, height: u32) -> Seq<u8>;

/// The JPEG file that encodes an RGB image at `quality`.
pub uninterp spec fn jpeg_bytes(rgb: Seq<u8>, width: u32, height: u32, quality: u8) -> Seq<u8>;

/// Whether the buffers for resampling an image of width `width` to
/// `new_width` by `new_height` can be allocated: an intermediate image of
/// `width` by `new_height` with four 32-bit channels, and the result.
pub open spec fn resize_fits(width: u32, new_width: u32, new_height: u32) -> bool {
    16 * width * new_height <= isize::MAX && 16 * new_width * new_height <= isize::MAX
}

/// The largest side a JPEG image can have.
pub const MAX_JPEG_SIDE: u32 = 65_535;

/// Whether an image of this size can be written as JPEG.
pub open spec fn jpeg_size_ok(width: u32, height: u32) -> bool {
    1 <= width <= MAX_JPEG_SIDE && 1 <= height <= MAX_JPEG_SIDE
}

/// An RGBA image without its alpha channel.
pub open spec fn without_alpha(pixels: Seq<u8>) -> Seq<u8> {
    Seq::new(((pixels.len() / 4) * 3) as nat, |i: int| pixels[(i / 3) * 4 + i % 3])
}

/// Calls `DynamicImage::resize_exact` with `FilterType::Triangle` on the
/// RGBA image made of `pixels`. Trusted: the result is the resampled image
/// that `triangle_resized` names, with four bytes for each of its pixels.
/// The call panics where a buffer cannot be allocated, so such sizes are
/// excluded.
#[verifier::external_body]
pub(crate) fn resize_rgba(
    pixels: &Vec<u8>,
    width: u32,
    height: u32,
    new_width: u32,
    new_height: u32,
) -> (resized: Vec<u8>)
    requires
        pixels@.len() == 4 * width * height,
        resize_fits(width, new_width, new_height),
    ensures
        resized@ == triangle_resized(pixels@, width, height, new_width, new_height),
        resized@.len() == 4 * new_width * new_height,
{
    let source = image::RgbaImage::from_raw(width, height, pixels.clone()).unwrap_or_default();
    image::DynamicImage::ImageRgba8(source).resize_exact(
        new_width,
        new_height,
        image::imageops::FilterType::Triangle,
    ).into_rgba8().into_raw()
}

/// Calls `DynamicImage::to_luma8` on the RGBA image made of `pixels`.
/// Trusted: the result is the luminance that `luma8` names, one byte for
/// each pixel.
#[verifier::external_body]
pub(crate) fn luma_of_rgba(pixels: &Vec<u8>, width: u32, height: u32) -> (luma: Vec<u8>)
    requires
        pixels@.len() == 4 * width * height,
    ensures
        luma@ == luma8(pixels@, width, height),
        luma@.len() == width * height,
{
    let source = image::RgbaImage::from_raw(width, height, pixels.clone()).unwrap_or_default();
    image::DynamicImage::ImageRgba8(source).to_luma8().into_raw()
}

/// Calls `DynamicImage::to_rgb8` on the RGBA image made of `pixels`.
/// Trusted: the result holds red, green and blue of each pixel as they
/// were, and no alpha.
#[verifier::external_body]
pub(crate) fn rgb_of_rgba(pixels: &Vec<u8>, width: u32, height: u32) -> (rgb: Vec<u8>)
    requires
        pixels@.len() == 4 * width * height,
    ensures
        rgb@ == without_alpha(pixels@),
{
    let source = image::RgbaImage::from_raw(width, height, pixels.clone()).unwrap_or_default();
    image::DynamicImage::ImageRgba8(source).to_rgb8().into_raw()
}

/// Calls `JpegEncoder::new_with_quality` and `JpegEncoder::encode` with
/// `ExtendedColorType::Rgb8`, writing into memory. Trusted: the call
/// succeeds exactly for the sizes that JPEG can hold, and then returns the
/// file that `jpeg_bytes` names. The call panics on a buffer of the wrong
/// length, so such buffers are excluded.
#[verifier::external_body]
pub(crate) fn jpeg_encode(rgb: &Vec<u8>, width: u32, height: u32, quality: u8) -> (encoded: Result<
    Vec<u8>,
    image::ImageError,
>)
    requires
        rgb@.len() == 3 * width * height,
    ensures
        match encoded {
            Ok(file) => jpeg_size_ok(width, height) && file@ == jpeg_bytes(
                rgb@,
                width,
                height,
                quality,
            ),
            Err(_) => !jpeg_size_ok(width, height),
        },
{
    let mut file: Vec<u8> = Vec::new();
    let written = image::codecs::jpeg::JpegEncoder::new_with_quality(&mut file, quality).encode(
        rgb,
        width,
        height,
        image::ExtendedColorType::Rgb8,
    );
    written.map(|_| file)
}

/// The message of an `image::ImageError`, as its `Display` prints it.
/// Nothing is claimed about the text.
#[verifier::external_body]
pub(crate) fn image_error_text(error: &image::ImageError) -> String {
    error.to_string()
}

} // verus!
