//! The image decoder: recognises the file format of the fetched bytes by
//! their signature and has them decoded into a raster.

use vstd::prelude::*;
use crate::codec::{decode_rgba8, decoded_rgba8, error_text};
use crate::error::PipelineError;
use crate::raster::{fills, DecodedImage, Raster};

verus! {

/// A file format that source images are read from.
#[derive(Clone, Copy, Debug, PartialEq, Eq, Structural)]
pub enum SourceFormat {
    Png,
    Jpeg,
    Gif,
    WebP,
    Bmp,
}

/// `bytes` opens with the eight bytes that begin every PNG file.
pub open spec fn is_png(bytes: Seq<u8>) -> bool {
    &&& bytes.len() >= 8
    &&& bytes[0] == 0x89
    &&& bytes[1] == 0x50
    &&& bytes[2] == 0x4E
    &&& bytes[3] == 0x47
    &&& bytes[4] == 0x0D
    &&& bytes[5] == 0x0A
    &&& bytes[6] == 0x1A
    &&& bytes[7] == 0x0A
}

/// `bytes` opens with a JPEG start-of-image marker and the first byte of the
/// marker after it.
pub open spec fn is_jpeg(bytes: Seq<u8>) -> bool {
    &&& bytes.len() >= 3
    &&& bytes[0] == 0xFF
    &&& bytes[1] == 0xD8
    &&& bytes[2] == 0xFF
}

/// `bytes` opens with `GIF87a` or `GIF89a`.
pub open spec fn is_gif(bytes: Seq<u8>) -> bool {
    &&& bytes.len() >= 6
    &&& bytes[0] == 0x47
    &&& bytes[1] == 0x49
    &&& bytes[2] == 0x46
    &&& bytes[3] == 0x38
    &&& (bytes[4] == 0x37 || bytes[4] == 0x39)
    &&& bytes[5] == 0x61
}

/// `bytes` opens with a RIFF header whose form type is `WEBP`; the four
/// bytes of the RIFF length in between may hold anything.
pub open spec fn is_webp(bytes: Seq<u8>) -> bool {
    &&& bytes.len() >= 12
    &&& bytes[0] == 0x52
    &&& bytes[1] == 0x49
    &&& bytes[2] == 0x46
    &&& bytes[3] == 0x46
    &&& bytes[8] == 0x57
    &&& bytes[9] == 0x45
    &&& bytes[10] == 0x42
    &&& bytes[11] == 0x50
}

/// `bytes` opens with `BM`.
pub open spec fn is_bmp(bytes: Seq<u8>) -> bool {
    &&& bytes.len() >= 2
    &&& bytes[0] == 0x42
    &&& bytes[1] == 0x4D
}

/// The format that the first bytes of a file announce, if it is one that
/// this library reads.
pub open spec fn sniffed(bytes: Seq<u8>) -> Option<SourceFormat> {
    if is_png(bytes) {
        Some(SourceFormat::Png)
    } else if is_jpeg(bytes) {
        Some(SourceFormat::Jpeg)
    } else if is_gif(bytes) {
        Some(SourceFormat::Gif)
    } else if is_webp(bytes) {
        Some(SourceFormat::WebP)
    } else if is_bmp(bytes) {
        Some(SourceFormat::Bmp)
    } else {
        None
    }
}

/// Recognises the format of a file by its first bytes.
pub fn sniff(bytes: &[u8]) -> (format: Option<SourceFormat>)
    ensures
        format == sniffed(bytes@),
{
    let n = bytes.len();
    if n >= 8 && bytes[0] == 0x89 && bytes[1] == 0x50 && bytes[2] == 0x4E && bytes[3] == 0x47
        && bytes[4] == 0x0D && bytes[5] == 0x0A && bytes[6] == 0x1A && bytes[7] == 0x0A {
        Some(SourceFormat::Png)
    } else if n >= 3 && bytes[0] == 0xFF && bytes[1] == 0xD8 && bytes[2] == 0xFF {
        Some(SourceFormat::Jpeg)
    } else if n >= 6 && bytes[0] == 0x47 && bytes[1] == 0x49 && bytes[2] == 0x46 && bytes[3]
        == 0x38 && (bytes[4] == 0x37 || bytes[4] == 0x39) && bytes[5] == 0x61 {
        Some(SourceFormat::Gif)
    } else if n >= 12 && bytes[0] == 0x52 && bytes[1] == 0x49 && bytes[2] == 0x46 && bytes[3]
        == 0x46 && bytes[8] == 0x57 && bytes[9] == 0x45 && bytes[10] == 0x42 && bytes[11]
        == 0x50 {
        Some(SourceFormat::WebP)
    } else if n >= 2 && bytes[0] == 0x42 && bytes[1] == 0x4D {
        Some(SourceFormat::Bmp)
    } else {
        None
    }
}

/// The reason given where a file opens with no signature that is known.
pub open spec fn unrecognized() -> Seq<char> {
    "unrecognized image format"@
}

/// The reason given where a decoder hands back what is no raster.
pub open spec fn malformed() -> Seq<char> {
    "the decoder returned no raster"@
}

/// The raster that a codec's output stands for: `None` where a dimension is
/// zero or the buffer does not hold four bytes for each pixel.
pub open spec fn raster_of(width: u32, height: u32, pixels: Seq<u8>) -> Option<Raster> {
    if width >= 1 && height >= 1 && fills(pixels.len(), width as nat, height as nat) {
        Some(Raster { width: width as nat, height: height as nat, pixels })
    } else {
        None
    }
}

/// The image that `bytes` hold: the raster that the decoder of the sniffed
/// format reads out of them. `None` where no format is recognised, where the
/// decoder fails, and where what it hands back is no raster.
pub open spec fn decoding(bytes: Seq<u8>) -> Option<Raster> {
    match sniffed(bytes) {
        None => None,
        Some(format) => match decoded_rgba8(bytes, format) {
            None => None,
            Some((width, height, pixels)) => raster_of(width, height, pixels),
        },
    }
}

/// Takes what a decoder handed back as a decoded image, or refuses it.
pub fn accept_raster(width: u32, height: u32, pixels: Vec<u8>) -> (r: Result<
    DecodedImage,
    PipelineError,
>)
    ensures
        match r {
            Ok(image) => raster_of(width, height, pixels@) == Some(image@) && image@.wf(),
            Err(e) => raster_of(width, height, pixels@) is None && (e matches PipelineError::DecodeFailed(
                reason,
            ) && reason@ == malformed()),
        },
{
    match DecodedImage::new(width, height, pixels) {
        Some(image) => Ok(image),
        None => Err(PipelineError::DecodeFailed("the decoder returned no raster".to_owned())),
    }
}

/// Decodes fetched bytes into an image. Bytes that open with no known
/// signature, and so an empty input, are refused without a decoder being
/// tried. Where a decoder fails, the reason is in the decoder's words.
pub fn decode(bytes: &[u8]) -> (r: Result<DecodedImage, PipelineError>)
    ensures
        match r {
            Ok(image) => decoding(bytes@) == Some(image@) && image@.wf(),
            Err(e) => decoding(bytes@) is None && e is DecodeFailed,
        },
        bytes@.len() == 0 ==> sniffed(bytes@) is None,
        sniffed(bytes@) is None ==> (r matches Err(PipelineError::DecodeFailed(reason)) && reason@
            == unrecognized()),
{
    let format = match sniff(bytes) {
        Some(format) => format,
        None => {
            return Err(PipelineError::DecodeFailed("unrecognized image format".to_owned()));
        },
    };
    match decode_rgba8(bytes, format) {
        Ok((width, height, pixels)) => accept_raster(width, height, pixels),
        Err(error) => Err(PipelineError::DecodeFailed(error_text(&error))),
    }
}

} // verus!
