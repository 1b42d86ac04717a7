//! The resizer: scales an image to a target width, keeping its proportions.

use vstd::prelude::*;
use vstd::arithmetic::div_mod::{
    lemma_div_is_ordered, lemma_fundamental_div_mod, lemma_fundamental_div_mod_converse,
};
use crate::codec::{nearest_resampled, resample_nearest};
use crate::raster::{DecodedImage, Raster};

verus! {

/// The most pixels that an image may be enlarged to. An image that is made
/// smaller, or kept at its width, is not held to it.
pub const MAX_UPSCALED_PIXELS: u64 = 16_777_216;

/// The integer nearest to `n / d`; a half is rounded up.
pub open spec fn rounded_quotient(n: nat, d: nat) -> nat {
    (2 * n + d) / (2 * d)
}

/// The height that keeps the proportions of a `width` by `height` image when
/// its width becomes `target_width`: `height * target_width / width`,
/// rounded to the nearest integer, and one where that would be zero.
pub open spec fn target_height(width: nat, height: nat, target_width: nat) -> nat {
    let rounded = rounded_quotient(height * target_width, width);
    if rounded >= 1 {
        rounded
    } else {
        1
    }
}

/// Whether the buffers of one resampling can be allocated: none may take
/// more than `isize::MAX` bytes. The result takes four bytes a pixel. Where
/// the dimensions change, the resampler first fills a raster of the source's
/// width and the result's height, at sixteen bytes a pixel.
pub open spec fn buffers_fit(width: nat, height: nat, new_width: nat, new_height: nat) -> bool {
    &&& 4 * (new_width * new_height) <= isize::MAX
    &&& (new_width == width && new_height == height) || 16 * (width * new_height) <= isize::MAX
}

/// Whether a `width` by `height` image can be resized to `target_width`.
/// The machine must be able to hold the buffers, whatever the width; and an
/// image that is enlarged may not grow beyond `MAX_UPSCALED_PIXELS`.
pub open spec fn within_limits(width: nat, height: nat, target_width: nat) -> bool {
    let new_height = target_height(width, height, target_width);
    &&& buffers_fit(width, height, target_width, new_height)
    &&& target_width > width ==> target_width * new_height <= MAX_UPSCALED_PIXELS
}

/// The image that resizing `source` to `target_width` gives.
pub open spec fn resized(source: Raster, target_width: nat) -> Raster {
    let new_height = target_height(source.width, source.height, target_width);
    Raster {
        width: target_width,
        height: new_height,
        pixels: nearest_resampled(
            source.pixels,
            source.width as u32,
            source.height as u32,
            target_width as u32,
            new_height as u32,
        ),
    }
}

/// Rounding to the nearest integer is the quotient, and one more where the
/// remainder is at least half the divisor.
pub proof fn lemma_rounded_quotient(n: nat, d: nat)
    requires
        d >= 1,
    ensures
        rounded_quotient(n, d) == n / d + if 2 * (n % d) >= d {
            1nat
        } else {
            0nat
        },
{
    let q = (n / d) as int;
    let r = (n % d) as int;
    lemma_fundamental_div_mod(n as int, d as int);
    if 2 * r >= d {
        assert(2 * n + d == (q + 1) * (2 * d) + (2 * r - d)) by (nonlinear_arith)
            requires
                n == d * q + r,
        ;
        lemma_fundamental_div_mod_converse((2 * n + d) as int, (2 * d) as int, q + 1, 2 * r - d);
    } else {
        assert(2 * n + d == q * (2 * d) + (2 * r + d)) by (nonlinear_arith)
            requires
                n == d * q + r,
        ;
        lemma_fundamental_div_mod_converse((2 * n + d) as int, (2 * d) as int, q, 2 * r + d);
    }
}

/// The proportions survive resizing to within one pixel: the new height
/// differs from the exact `height * target_width / width` by at most one, and
/// by at most a half where the exact height is a half or more.
pub proof fn lemma_target_height_within_one_pixel(width: nat, height: nat, target_width: nat)
    requires
        width >= 1,
    ensures
        ({
            let new_height = target_height(width, height, target_width);
            &&& new_height >= 1
            &&& (new_height - 1) * width <= height * target_width
            &&& height * target_width <= (new_height + 1) * width
            &&& 2 * (height * target_width) >= width ==> {
                &&& 2 * (new_height * width) <= 2 * (height * target_width) + width
                &&& 2 * (height * target_width) < 2 * (new_height * width) + width
            }
        }),
{
    let n = height * target_width;
    let q = (n / width) as int;
    let r = (n % width) as int;
    let w = width as int;
    lemma_rounded_quotient(n, width);
    lemma_fundamental_div_mod(n as int, w);
    let rounded = rounded_quotient(n, width) as int;
    assert(w * q == q * w) by (nonlinear_arith);
    assert((rounded - q) * w == if 2 * r >= w {
        w
    } else {
        0
    }) by (nonlinear_arith)
        requires
            rounded - q == if 2 * r >= w {
                1int
            } else {
                0int
            },
    ;
    assert((rounded - 1) * w == rounded * w - w) by (nonlinear_arith);
    assert((rounded + 1) * w == rounded * w + w) by (nonlinear_arith);
}

/// Computes `target_height`.
pub fn scaled_height(width: u32, height: u32, target_width: u32) -> (new_height: u64)
    requires
        width >= 1,
    ensures
        new_height == target_height(width as nat, height as nat, target_width as nat),
{
    proof {
        assert(height * target_width <= 0xFFFF_FFFF * 0xFFFF_FFFF) by (nonlinear_arith)
            requires
                0 <= height <= 0xFFFF_FFFF,
                0 <= target_width <= 0xFFFF_FFFF,
        ;
        lemma_rounded_quotient(height as nat * target_width as nat, width as nat);
    }
    let product: u64 = height as u64 * target_width as u64;
    let quotient: u64 = product / width as u64;
    let remainder: u64 = product % width as u64;
    let rounded: u64 = if 2 * remainder >= width as u64 {
        quotient + 1
    } else {
        quotient
    };
    if rounded >= 1 {
        rounded
    } else {
        1
    }
}

/// An image that is not made wider is not made higher either.
pub proof fn lemma_narrower_is_not_higher(width: nat, height: nat, target_width: nat)
    requires
        height >= 1,
        1 <= target_width <= width,
    ensures
        target_height(width, height, target_width) <= height,
{
    let w = width as int;
    let h = height as int;
    let t = target_width as int;
    assert(h * t <= h * w) by (nonlinear_arith)
        requires
            t <= w,
            h >= 0,
    ;
    assert(2 * (h * w) + w == h * (2 * w) + w) by (nonlinear_arith);
    lemma_fundamental_div_mod_converse(2 * (h * w) + w, 2 * w, h, w);
    lemma_div_is_ordered(2 * (h * t) + w, 2 * (h * w) + w, 2 * w);
}

/// Whether `image` can be resized to `target_width`: the width is positive,
/// the buffers can be allocated, and an enlarged image stays within
/// `MAX_UPSCALED_PIXELS`.
pub fn fits(image: &DecodedImage, target_width: u32) -> (ok: bool)
    ensures
        ok == (target_width >= 1 && within_limits(
            image@.width,
            image@.height,
            target_width as nat,
        )),
{
    if target_width == 0 {
        return false;
    }
    let width = image.width();
    let height = image.height();
    let new_height = scaled_height(width, height, target_width);
    proof {
        assert(target_width * new_height <= 0xFFFF_FFFF * 0xFFFF_FFFF_FFFF_FFFF) by (nonlinear_arith)
            requires
                0 <= target_width <= 0xFFFF_FFFF,
                0 <= new_height <= 0xFFFF_FFFF_FFFF_FFFF,
        ;
        assert(width * new_height <= 0xFFFF_FFFF * 0xFFFF_FFFF_FFFF_FFFF) by (nonlinear_arith)
            requires
                0 <= width <= 0xFFFF_FFFF,
                0 <= new_height <= 0xFFFF_FFFF_FFFF_FFFF,
        ;
    }
    let most: u128 = isize::MAX as u128;
    let result_pixels: u128 = target_width as u128 * new_height as u128;
    let working_pixels: u128 = width as u128 * new_height as u128;
    let unchanged = target_width == width && new_height == height as u64;
    if 4 * result_pixels > most {
        return false;
    }
    if !unchanged && 16 * working_pixels > most {
        return false;
    }
    target_width <= width || result_pixels <= MAX_UPSCALED_PIXELS as u128
}

/// Resizes `image` to `target_width` with nearest-neighbour sampling. The
/// result is exactly `target_width` wide and `target_height` high; nothing
/// is cropped.
pub fn resize(image: &DecodedImage, target_width: u32) -> (out: DecodedImage)
    requires
        target_width >= 1,
        within_limits(image@.width, image@.height, target_width as nat),
    ensures
        out@ == resized(image@, target_width as nat),
        out@.wf(),
        target_width == image@.width ==> out@ == image@,
{
    let width = image.width();
    let height = image.height();
    let new_height = scaled_height(width, height, target_width);
    proof {
        let h = new_height as int;
        if target_width <= width {
            lemma_narrower_is_not_higher(width as nat, height as nat, target_width as nat);
        } else {
            assert(h <= target_width * h) by (nonlinear_arith)
                requires
                    target_width >= 1,
                    h >= 0,
            ;
        }
        assert(16 * width * h == 16 * (width * h)) by (nonlinear_arith);
        assert(4 * target_width * h == 4 * (target_width * h)) by (nonlinear_arith);
        if target_width == width {
            lemma_same_width_same_height(width as nat, height as nat);
        }
    }
    let new_height = new_height as u32;
    let pixels = resample_nearest(image.pixels().as_slice(), width, height, target_width, new_height);
    DecodedImage::from_parts(target_width, new_height, pixels)
}

/// An image resized to its own width keeps its height.
pub proof fn lemma_same_width_same_height(width: nat, height: nat)
    requires
        width >= 1,
        height >= 1,
    ensures
        target_height(width, height, width) == height,
{
    lemma_fundamental_div_mod_converse((height * width) as int, width as int, height as int, 0);
    lemma_rounded_quotient(height * width, width);
}

} // verus!
