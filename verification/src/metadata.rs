//! The acceptance filter: orientation and quality checks over an image's
//! pixel dimensions.
//!
//! Decoding an image to obtain its dimensions is I/O and happens outside
//! the library; the filter takes the dimensions as plain values.  The
//! landscape coefficient arrives in thousandths and the megapixel bounds
//! as pixel counts, so every test here is exact integer arithmetic.

use crate::config::LocalCnf;
use vstd::arithmetic::mul::lemma_mul_upper_bound;
use vstd::prelude::*;

verus! {

/// An image's pixel dimensions.
#[derive(Clone, Copy, PartialEq, Eq, Structural, Debug)]
pub struct Dimensions {
    pub width: u32,
    pub height: u32,
}

/// The image counts as landscape: its width is at least its height scaled
/// by the coefficient (in thousandths).
pub open spec fn spec_landscape(coef_milli: u32, d: Dimensions) -> bool {
    d.height * coef_milli <= d.width * 1000
}

/// Orientation test.  Returns `true` iff the image is landscape under the
/// configured coefficient: `height * coefficient <= width * 1000`, with
/// the coefficient in thousandths.
pub fn landscape(coef_milli: u32, img_d: &Dimensions) -> (r: bool)
    ensures
        r == spec_landscape(coef_milli, *img_d),
{
    proof {
        lemma_mul_upper_bound(img_d.height as int, u32::MAX as int, coef_milli as int, u32::MAX as int);
    }
    (img_d.height as u64) * (coef_milli as u64) <= (img_d.width as u64) * 1000
}

/// The image's pixel count lies strictly inside the configured range,
/// with the bounds put in order first: a count exactly at either bound is
/// rejected.
pub open spec fn spec_qual_control(min_px: u64, max_px: u64, d: Dimensions) -> bool {
    let px = d.width * d.height;
    let lo = if min_px > max_px { max_px } else { min_px };
    let hi = if min_px > max_px { min_px } else { max_px };
    lo < px && px < hi
}

/// Quality test.  Normalizes the bounds so that the lower one is applied
/// below and the higher above, then accepts iff the pixel count lies
/// strictly between them.
pub fn qual_control(min_px: u64, max_px: u64, img_d: &Dimensions) -> (r: bool)
    ensures
        r == spec_qual_control(min_px, max_px, *img_d),
{
    let lo = if min_px > max_px { max_px } else { min_px };
    let hi = if min_px > max_px { min_px } else { max_px };
    proof {
        lemma_mul_upper_bound(img_d.width as int, u32::MAX as int, img_d.height as int, u32::MAX as int);
    }
    let px = (img_d.width as u64) * (img_d.height as u64);
    lo < px && px < hi
}

/// The quality test does not depend on the order in which the two bounds
/// are given: a pair with the minimum above the maximum behaves exactly
/// like the swapped pair.
pub proof fn lemma_qual_control_swap(min_px: u64, max_px: u64, d: Dimensions)
    ensures
        spec_qual_control(min_px, max_px, d) == spec_qual_control(max_px, min_px, d),
{
}

/// A pixel count exactly at either bound is rejected: both comparisons of
/// the quality test are strict.
pub proof fn lemma_boundary_rejected(min_px: u64, max_px: u64, d: Dimensions)
    requires
        d.width * d.height == min_px || d.width * d.height == max_px,
    ensures
        !spec_qual_control(min_px, max_px, d),
{
}

/// The filter accepts the image: it passes every test the configuration
/// enables.  The landscape test applies unless portrait images are
/// allowed; the quality test applies when quality control is set.
pub open spec fn spec_accepts(d: Dimensions, local: LocalCnf) -> bool {
    &&& local.use_portrait || spec_landscape(local.landscape_coef_milli, d)
    &&& !local.set_quality_control || spec_qual_control(local.min_pixels, local.max_pixels, d)
}

/// Applies every enabled acceptance test to the image's dimensions.
pub fn accepts(img_d: &Dimensions, local: &LocalCnf) -> (r: bool)
    ensures
        r == spec_accepts(*img_d, *local),
{
    if !local.use_portrait {
        if !landscape(local.landscape_coef_milli, img_d) {
            return false;
        }
    }
    if local.set_quality_control {
        if !qual_control(local.min_pixels, local.max_pixels, img_d) {
            return false;
        }
    }
    true
}

} // verus!
