//! The calls into the `image` crate: reading a file into pixels, resampling
//! pixels, and writing pixels out as JPEG, WebP or AVIF. Nothing in this
//! file is proved; each contract says what the called function was read to do.

use vstd::prelude::*;
use crate::decode::SourceFormat;

verus! {

#[verifier::external_type_specification]
#[verifier::external_body]
pub struct ExImageError(image::ImageError);

/// What the `image` crate reads out of `bytes` taken as a file of `format`:
/// width, height, and the pixels as RGBA with eight bits a channel; `None`
/// where it reports an error.
pub uninterp spec fn decoded_rgba8(bytes: Seq<u8>, format: SourceFormat) -> Option<
    (u32, u32, Seq<u8>),
>;

/// The pixels that the `image` crate's nearest-neighbour filter makes of a
/// `width` by `height` RGBA raster when it resamples it to `new_width` by
/// `new_height`.
pub uninterp spec fn nearest_resampled(
    pixels: Seq<u8>,
    width: u32,
    height: u32,
    new_width: u32,
    new_height: u32,
) -> Seq<u8>;

/// The JPEG file that the `image` crate writes for a `width` by `height`
/// raster of RGB pixels at `quality`; `None` where it reports an error.
pub uninterp spec fn jpeg_bytes(rgb: Seq<u8>, width: u32, height: u32, quality: u8) -> Option<
    Seq<u8>,
>;

/// The lossless WebP file that the `image` crate writes for a `width` by
/// `height` raster of RGBA pixels; `None` where it reports an error.
pub uninterp spec fn webp_bytes(rgba: Seq<u8>, width: u32, height: u32) -> Option<Seq<u8>>;

/// Decodes with `image::load_from_memory_with_format`, which reads `bytes`
/// with the decoder of the one format it is told, and converts the outcome
/// with `DynamicImage::into_rgba8`. The contract only names the outcome:
/// it promises no success, and nothing of the dimensions or of the buffer's
/// length.
#[verifier::external_body]
pub(crate) fn decode_rgba8(bytes: &[u8], format: SourceFormat) -> (r: Result<
    (u32, u32, Vec<u8>),
    image::ImageError,
>)
    ensures
        match r {
            Ok(raster) => decoded_rgba8(bytes@, format) == Some((raster.0, raster.1, raster.2@)),
            Err(_) => decoded_rgba8(bytes@, format) is None,
        },
{
    let kind = match format {
        SourceFormat::Png => image::ImageFormat::Png,
        SourceFormat::Jpeg => image::ImageFormat::Jpeg,
        SourceFormat::Gif => image::ImageFormat::Gif,
        SourceFormat::WebP => image::ImageFormat::WebP,
        SourceFormat::Bmp => image::ImageFormat::Bmp,
    };
    let decoded = image::load_from_memory_with_format(bytes, kind)?.into_rgba8();
    Ok((decoded.width(), decoded.height(), decoded.into_raw()))
}

/// Resamples with `image::imageops::resize` and `FilterType::Nearest`.
///
/// Where the dimensions do not change, that function copies the source into
/// a new buffer and returns. Otherwise it allocates a `width` by
/// `new_height` raster of four `f32` a pixel, then the `new_width` by
/// `new_height` result, and panics where a buffer's length overflows; the
/// first two preconditions keep every buffer within what a vector can hold.
/// The third makes the view over `pixels` exist. The result is created by
/// `ImageBuffer::new`, which allocates exactly four bytes for each pixel.
#[verifier::external_body]
pub(crate) fn resample_nearest(
    pixels: &[u8],
    width: u32,
    height: u32,
    new_width: u32,
    new_height: u32,
) -> (out: Vec<u8>)
    requires
        4 * new_width * new_height <= isize::MAX,
        (new_width == width && new_height == height) || 16 * width * new_height <= isize::MAX,
        width >= 1 && height >= 1 && pixels@.len() == 4 * width * height,
    ensures
        out@ == nearest_resampled(pixels@, width, height, new_width, new_height),
        out@.len() == 4 * new_width * new_height,
        new_width == width && new_height == height ==> out@ == pixels@,
{
    let source: image::ImageBuffer<image::Rgba<u8>, &[u8]> = image::ImageBuffer::from_raw(
        width,
        height,
        pixels,
    ).unwrap();
    image::imageops::resize(
        &source,
        new_width,
        new_height,
        image::imageops::FilterType::Nearest,
    ).into_raw()
}

/// Writes a JPEG with `image::codecs::jpeg::JpegEncoder::new_with_quality`
/// and its `encode`, which panics unless `rgb` holds exactly three bytes for
/// each pixel. The encoder refuses a side of zero and a side above 65535,
/// which the format cannot record. Its only other errors are those of the
/// writer, and writing into a vector does not fail.
#[verifier::external_body]
pub(crate) fn encode_jpeg(rgb: &[u8], width: u32, height: u32, quality: u8) -> (r: Result<
    Vec<u8>,
    image::ImageError,
>)
    requires
        rgb@.len() == 3 * width * height,
    ensures
        match r {
            Ok(file) => jpeg_bytes(rgb@, width, height, quality) == Some(file@),
            Err(_) => jpeg_bytes(rgb@, width, height, quality) is None,
        },
        (r is Ok) == (width >= 1 && height >= 1 && width <= 65535 && height <= 65535),
{
    let mut file = Vec::new();
    image::codecs::jpeg::JpegEncoder::new_with_quality(&mut file, quality).encode(
        rgb,
        width,
        height,
        image::ExtendedColorType::Rgb8,
    )?;
    Ok(file)
}

/// Writes a lossless WebP with `image::codecs::webp::WebPEncoder::new_lossless`
/// and its `encode`, which panics unless `rgba` holds exactly four bytes for
/// each pixel. The encoder takes no quality. It refuses a side of zero and a
/// side above 16384; its only other errors are those of the writer, and
/// writing into a vector does not fail.
#[verifier::external_body]
pub(crate) fn encode_webp(rgba: &[u8], width: u32, height: u32) -> (r: Result<
    Vec<u8>,
    image::ImageError,
>)
    requires
        rgba@.len() == 4 * width * height,
    ensures
        match r {
            Ok(file) => webp_bytes(rgba@, width, height) == Some(file@),
            Err(_) => webp_bytes(rgba@, width, height) is None,
        },
        (r is Ok) == (width >= 1 && height >= 1 && width <= 16384 && height <= 16384),
{
    let mut file = Vec::new();
    image::codecs::webp::WebPEncoder::new_lossless(&mut file).encode(
        rgba,
        width,
        height,
        image::ExtendedColorType::Rgba8,
    )?;
    Ok(file)
}

/// Writes an AVIF with `image::codecs::avif::AvifEncoder::new_with_speed_quality`
/// and its `write_image`. The encoder panics on a speed or a quality of zero
/// and unless `rgba` holds exactly four bytes for each pixel. It lays out its
/// work by the number of threads it finds and computes with floating-point
/// functions whose last digits differ between platforms, so nothing is
/// claimed of the file, nor of when one is written.
#[verifier::external_body]
pub(crate) fn encode_avif(rgba: &[u8], width: u32, height: u32, speed: u8, quality: u8) -> (r:
    Result<Vec<u8>, image::ImageError>)
    requires
        1 <= speed <= 10,
        1 <= quality <= 100,
        rgba@.len() == 4 * width * height,
{
    let mut file = Vec::new();
    image::ImageEncoder::write_image(
        image::codecs::avif::AvifEncoder::new_with_speed_quality(&mut file, speed, quality),
        rgba,
        width,
        height,
        image::ExtendedColorType::Rgba8,
    )?;
    Ok(file)
}

/// The words of an `image::ImageError`, by its `Display`.
#[verifier::external_body]
pub(crate) fn error_text(error: &image::ImageError) -> (text: String) {
    error.to_string()
}

} // verus!
