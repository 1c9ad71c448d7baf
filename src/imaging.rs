//! Exact-size resampling of a decoded image, through the `image` crate.

use vstd::prelude::*;
use image::DynamicImage;

verus! {

#[verifier::external_type_specification]
#[verifier::external_body]
pub struct ExDynamicImage(DynamicImage);

/// The width in pixels of a decoded image.
pub uninterp spec fn width_of(img: DynamicImage) -> u32;

/// The height in pixels of a decoded image.
pub uninterp spec fn height_of(img: DynamicImage) -> u32;

/// Relies on `DynamicImage::width`: the width of the underlying buffer.
pub assume_specification[ DynamicImage::width ](img: &DynamicImage) -> (r: u32)
    ensures
        r == width_of(*img),
;

/// Relies on `DynamicImage::height`: the height of the underlying buffer.
pub assume_specification[ DynamicImage::height ](img: &DynamicImage) -> (r: u32)
    ensures
        r == height_of(*img),
;

/// Resampling to `width` × `height` allocates buffers of at most 16 bytes a
/// pixel, the larger of the old and the new width by the new height; each
/// must stay within the largest allocation Rust permits.
pub open spec fn resize_fits(old_width: u32, width: u32, height: u32) -> bool {
    &&& 16 * (old_width as int) * (height as int) <= isize::MAX as int
    &&& 16 * (width as int) * (height as int) <= isize::MAX as int
}

/// Relies on `DynamicImage::resize_exact` with the Lanczos3 filter: a new
/// image of exactly `width` × `height` pixels, aspect ratio not kept.
#[verifier::external_body]
fn resize_lanczos(img: &DynamicImage, width: u32, height: u32) -> (r: DynamicImage)
    requires
        resize_fits(width_of(*img), width, height),
    ensures
        width_of(r) == width,
        height_of(r) == height,
{
    img.resize_exact(width, height, image::imageops::FilterType::Lanczos3)
}

/// Resamples `img` to exactly `width` × `height` with a Lanczos filter.
pub fn resize_to(img: &DynamicImage, width: u32, height: u32) -> (r: DynamicImage)
    requires
        resize_fits(width_of(*img), width, height),
    ensures
        width_of(r) == width,
        height_of(r) == height,
{
    resize_lanczos(img, width, height)
}

/// Applies an optional exact resize: the image unchanged where none is asked
/// for, `None` where the resampling buffers would exceed what Rust can
/// allocate, else the image resampled to exactly the asked dimensions.
pub fn apply_resize(img: DynamicImage, size: Option<(u32, u32)>) -> (r: Option<DynamicImage>)
    ensures
        size is None ==> r == Some(img),
        forall|w: u32, h: u32|
            size == Some((w, h)) ==> (r is Some <==> resize_fits(width_of(img), w, h)),
        forall|w: u32, h: u32|
            size == Some((w, h)) && r is Some ==> width_of(r->0) == w && height_of(r->0) == h,
{
    match size {
        None => Some(img),
        Some((w, h)) => {
            let old_width = img.width();
            let limit: u64 = isize::MAX as u64;
            assert(limit == isize::MAX);
            let wide: u64 = if old_width > w { old_width as u64 } else { w as u64 };
            if (h as u64) > 0 && wide > limit / 16 / (h as u64) {
                assert(16 * (wide as int) * (h as int) > limit) by (nonlinear_arith)
                    requires
                        h > 0,
                        wide > limit / 16 / (h as u64),
                ;
                None
            } else {
                assert(16 * (old_width as int) * (h as int) <= limit && 16 * (w as int) * (h as int)
                    <= limit) by (nonlinear_arith)
                    requires
                        h == 0 || wide <= limit / 16 / (h as u64),
                        old_width <= wide,
                        w <= wide,
                ;
                Some(resize_to(&img, w, h))
            }
        },
    }
}

} // verus!
