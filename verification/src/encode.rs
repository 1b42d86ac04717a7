//! The encoder: writes a raster out in the negotiated format.

use vstd::prelude::*;
use crate::codec::{encode_avif, encode_jpeg, encode_webp, error_text, jpeg_bytes, webp_bytes};
use crate::error::PipelineError;
use crate::format::OutputFormat;
use crate::raster::{DecodedImage, Raster};

verus! {

/// The effort that the AVIF encoder is run at, on its scale from 1, the
/// slowest, to 10: a proxy answers while the client waits.
pub const AVIF_SPEED: u8 = 8;

/// The longest side that a JPEG can record.
pub const JPEG_MAX_SIDE: u32 = 65535;

/// The longest side that a WebP can record.
pub const WEBP_MAX_SIDE: u32 = 16384;

/// An encoded image: the file, its format, and the dimensions of the raster
/// that was written into it.
#[derive(Debug)]
pub struct EncodedOutput {
    pub bytes: Vec<u8>,
    pub format: OutputFormat,
    pub width: u32,
    pub height: u32,
}

/// The colour channels of RGBA pixels: every fourth byte, the alpha, is left
/// out. A tail of fewer than four bytes is no pixel and is left out too.
pub open spec fn color_channels(rgba: Seq<u8>) -> Seq<u8> {
    Seq::new(3 * (rgba.len() / 4), |i: int| rgba[4 * (i / 3) + i % 3])
}

/// Drops the alpha channel: JPEG has none.
pub fn strip_alpha(rgba: &[u8]) -> (rgb: Vec<u8>)
    ensures
        rgb@ == color_channels(rgba@),
{
    let count: usize = rgba.len() / 4;
    let mut rgb: Vec<u8> = Vec::new();
    let mut pixel: usize = 0;
    while pixel < count
        invariant
            count == rgba.len() / 4,
            pixel <= count,
            rgb@.len() == 3 * pixel,
            forall|i: int| 0 <= i < rgb@.len() ==> rgb@[i] == rgba@[4 * (i / 3) + i % 3],
        decreases count - pixel,
    {
        let at: usize = 4 * pixel;
        rgb.push(rgba[at]);
        rgb.push(rgba[at + 1]);
        rgb.push(rgba[at + 2]);
        pixel += 1;
    }
    rgb
}

/// Whether `format` can record an image of the given dimensions. For JPEG
/// and WebP this decides whether encoding succeeds. An AVIF encoder may fail
/// on an image that the format can record.
pub open spec fn recordable(format: OutputFormat, width: nat, height: nat) -> bool {
    match format {
        OutputFormat::Jpeg => 1 <= width <= JPEG_MAX_SIDE && 1 <= height <= JPEG_MAX_SIDE,
        OutputFormat::WebP => 1 <= width <= WEBP_MAX_SIDE && 1 <= height <= WEBP_MAX_SIDE,
        OutputFormat::Avif => 1 <= width && 1 <= height,
    }
}

/// What encoding `image` as `format` at `quality` may give. Success carries
/// the format and the dimensions of `image`; failure is `EncodeFailed`. For
/// JPEG and WebP the encoder is a function of what it is handed: encoding
/// succeeds exactly where the format can record the image, and the file is
/// the one the encoder writes. Of an AVIF file nothing more is known: the
/// encoder decides.
pub open spec fn encoded(
    image: Raster,
    format: OutputFormat,
    quality: u8,
    r: Result<EncodedOutput, PipelineError>,
) -> bool {
    let file = match r {
        Ok(output) => Some(output.bytes@),
        Err(_) => None,
    };
    &&& match r {
        Ok(output) => {
            &&& output.format == format
            &&& output.width == image.width
            &&& output.height == image.height
        },
        Err(e) => e is EncodeFailed,
    }
    &&& match format {
        OutputFormat::Jpeg => file == jpeg_bytes(
            color_channels(image.pixels),
            image.width as u32,
            image.height as u32,
            quality,
        ),
        OutputFormat::WebP => file == webp_bytes(
            image.pixels,
            image.width as u32,
            image.height as u32,
        ),
        OutputFormat::Avif => true,
    }
    &&& format != OutputFormat::Avif ==> (r is Ok <==> recordable(
        format,
        image.width,
        image.height,
    ))
}

/// Wraps up what a codec returned: the file with its format and dimensions,
/// or `EncodeFailed` with the codec's words.
pub fn finish_encoding(
    format: OutputFormat,
    width: u32,
    height: u32,
    outcome: Result<Vec<u8>, String>,
) -> (r: Result<EncodedOutput, PipelineError>)
    ensures
        match outcome {
            Ok(file) => r matches Ok(output) && output.bytes@ == file@ && output.format == format
                && output.width == width && output.height == height,
            Err(reason) => r matches Err(e) && e == PipelineError::EncodeFailed(reason),
        },
{
    match outcome {
        Ok(bytes) => Ok(EncodedOutput { bytes, format, width, height }),
        Err(reason) => Err(PipelineError::EncodeFailed(reason)),
    }
}

/// Encodes `image` as `format`. `quality` steers JPEG and AVIF; WebP is
/// written lossless and ignores it.
pub fn encode(image: &DecodedImage, format: OutputFormat, quality: u8) -> (r: Result<
    EncodedOutput,
    PipelineError,
>)
    requires
        1 <= quality <= 100,
    ensures
        encoded(image@, format, quality, r),
{
    let width = image.width();
    let height = image.height();
    let rgba = image.pixels().as_slice();
    proof {
        assert(3 * ((4 * (width * height)) / 4) == 3 * width * height) by (nonlinear_arith);
        assert(4 * width * height == 4 * (width * height)) by (nonlinear_arith);
    }
    let written = match format {
        OutputFormat::Jpeg => {
            let rgb = strip_alpha(rgba);
            encode_jpeg(rgb.as_slice(), width, height, quality)
        },
        OutputFormat::WebP => encode_webp(rgba, width, height),
        OutputFormat::Avif => encode_avif(rgba, width, height, AVIF_SPEED, quality),
    };
    let outcome = match written {
        Ok(file) => Ok(file),
        Err(error) => Err(error_text(&error)),
    };
    finish_encoding(format, width, height, outcome)
}

} // verus!
