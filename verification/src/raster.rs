//! The decoded image: a grid of RGBA pixels with eight bits a channel.

use vstd::prelude::*;

verus! {

/// Bytes that one pixel of a raster takes: red, green, blue and alpha.
pub const BYTES_PER_PIXEL: u64 = 4;

/// What a decoded image is: its dimensions and its pixels, row by row from
/// the top, each pixel as four bytes.
pub struct Raster {
    pub width: nat,
    pub height: nat,
    pub pixels: Seq<u8>,
}

impl Raster {
    /// A raster has at least one pixel, dimensions of at most 32 bits, and
    /// exactly the bytes that its dimensions call for.
    pub open spec fn wf(self) -> bool {
        &&& 1 <= self.width <= u32::MAX
        &&& 1 <= self.height <= u32::MAX
        &&& self.pixels.len() == BYTES_PER_PIXEL * self.width * self.height
    }
}

/// Whether `len` bytes are exactly the pixels of a `width` by `height` raster.
pub open spec fn fills(len: nat, width: nat, height: nat) -> bool {
    len == BYTES_PER_PIXEL * width * height
}

/// A decoded image. It is never empty, and its buffer always matches its
/// dimensions.
#[derive(Debug)]
pub struct DecodedImage {
    width: u32,
    height: u32,
    pixels: Vec<u8>,
}

impl View for DecodedImage {
    type V = Raster;

    closed spec fn view(&self) -> Raster {
        Raster { width: self.width as nat, height: self.height as nat, pixels: self.pixels@ }
    }
}

/// Whether a buffer of `len` bytes holds exactly `width` times `height`
/// pixels.
pub fn buffer_fills(len: usize, width: u32, height: u32) -> (r: bool)
    ensures
        r == fills(len as nat, width as nat, height as nat),
{
    proof {
        assert(width * height <= 0xFFFF_FFFF * 0xFFFF_FFFF) by (nonlinear_arith)
            requires
                0 <= width <= 0xFFFF_FFFF,
                0 <= height <= 0xFFFF_FFFF,
        ;
        assert(BYTES_PER_PIXEL * (width as nat) * (height as nat) == 4 * (width * height))
            by (nonlinear_arith);
    }
    let pixels: u64 = width as u64 * height as u64;
    let len: u64 = len as u64;
    len % 4 == 0 && len / 4 == pixels
}

impl DecodedImage {
    #[verifier::type_invariant]
    spec fn valid(&self) -> bool {
        self@.wf()
    }

    /// Takes a buffer of RGBA pixels as an image of the given dimensions;
    /// `None` where a dimension is zero or the buffer has another length than
    /// four bytes for each pixel.
    pub fn new(width: u32, height: u32, pixels: Vec<u8>) -> (r: Option<DecodedImage>)
        ensures
            r is Some <==> width >= 1 && height >= 1 && fills(
                pixels@.len(),
                width as nat,
                height as nat,
            ),
            r matches Some(image) ==> image@ == (Raster {
                width: width as nat,
                height: height as nat,
                pixels: pixels@,
            }) && image@.wf(),
    {
        if width >= 1 && height >= 1 && buffer_fills(pixels.len(), width, height) {
            Some(DecodedImage::from_parts(width, height, pixels))
        } else {
            None
        }
    }

    /// Takes a buffer that is known to hold the pixels of an image of the
    /// given dimensions.
    pub(crate) fn from_parts(width: u32, height: u32, pixels: Vec<u8>) -> (image: DecodedImage)
        requires
            width >= 1,
            height >= 1,
            fills(pixels@.len(), width as nat, height as nat),
        ensures
            image@ == (Raster { width: width as nat, height: height as nat, pixels: pixels@ }),
            image@.wf(),
    {
        DecodedImage { width, height, pixels }
    }

    /// The number of pixels in a row.
    pub fn width(&self) -> (width: u32)
        ensures
            width == self@.width,
            self@.wf(),
    {
        proof {
            use_type_invariant(self);
        }
        self.width
    }

    /// The number of rows.
    pub fn height(&self) -> (height: u32)
        ensures
            height == self@.height,
            self@.wf(),
    {
        proof {
            use_type_invariant(self);
        }
        self.height
    }

    /// The pixels, row by row from the top, four bytes each.
    pub fn pixels(&self) -> (pixels: &Vec<u8>)
        ensures
            pixels@ == self@.pixels,
            self@.wf(),
    {
        proof {
            use_type_invariant(self);
        }
        &self.pixels
    }
}

} // verus!
