//! Shrinking an image so that neither side exceeds a limit.
use vstd::prelude::*;
use crate::media::image::{lanczos3, spec_lanczos3, spec_resize_dimensions, Image};

verus! {

/// The size asked of the scaler: the longer side becomes `max_px` and the
/// shorter one is scaled by the same ratio, rounded down.
pub open spec fn target_dimensions(width: u32, height: u32, max_px: u32) -> (u32, u32)
    recommends
        width > 0 && height > 0,
{
    if width >= height {
        (max_px, ((height as int) * (max_px as int) / (width as int)) as u32)
    } else {
        (((width as int) * (max_px as int) / (height as int)) as u32, max_px)
    }
}

/// The dimensions the scaler gives for the size asked.
pub open spec fn resized_dimensions(width: u32, height: u32, max_px: u32) -> (u32, u32) {
    let (nw, nh) = target_dimensions(width, height, max_px);
    if nw == width && nh == height {
        (width, height)
    } else {
        spec_resize_dimensions(width, height, nw, nh)
    }
}

/// The scaled size asked for has no side of 0, so the scaler's result fits
/// within `max_px` on both sides.
pub open spec fn fits_after_resize(width: u32, height: u32, max_px: u32) -> bool {
    let (nw, nh) = target_dimensions(width, height, max_px);
    nw >= 1 && nh >= 1
}

/// Shrinks an image whose width or height exceeds `max_px` so that its longer
/// side is `max_px`, keeping its aspect ratio; a small enough image is
/// returned as it is. The pixels are the Lanczos3 resampling of the input's.
pub fn resize_max_dimension(image: Image, max_px: u32) -> (r: Image)
    ensures
        (image.spec_width() <= max_px && image.spec_height() <= max_px) ==> r == image,
        !(image.spec_width() <= max_px && image.spec_height() <= max_px) ==> {
            let (nw, nh) = target_dimensions(image.spec_width(), image.spec_height(), max_px);
            &&& (r.spec_width(), r.spec_height()) == resized_dimensions(image.spec_width(), image.spec_height(), max_px)
            &&& r.spec_layout() == image.spec_layout()
            &&& r.spec_pixels() == spec_lanczos3(
                image.spec_layout(),
                image.spec_width(),
                image.spec_height(),
                image.spec_pixels(),
                nw,
                nh,
            )
        },
        fits_after_resize(image.spec_width(), image.spec_height(), max_px) ==> (r.spec_width() <= max_px
            && r.spec_height() <= max_px),
        (max_px >= 1 && image.spec_width() >= 1 && image.spec_height() >= 1) ==> (r.spec_width() <= max_px
            && r.spec_height() <= max_px),
{
    let w = image.width();
    let h = image.height();
    if w <= max_px && h <= max_px {
        return image;
    }
    let (new_w, new_h) = if w >= h {
        proof {
            assert((h as int) * (max_px as int) <= 0xFFFF_FFFF * 0xFFFF_FFFF) by (nonlinear_arith)
                requires
                    h <= 0xFFFF_FFFF,
                    max_px <= 0xFFFF_FFFF,
            ;
        }
        let scaled: u64 = (h as u64) * (max_px as u64) / (w as u64);
        proof {
            assert((h as int) * (max_px as int) / (w as int) <= max_px as int) by (nonlinear_arith)
                requires
                    h <= w,
                    w > 0,
            ;
        }
        (max_px, scaled as u32)
    } else {
        proof {
            assert((w as int) * (max_px as int) <= 0xFFFF_FFFF * 0xFFFF_FFFF) by (nonlinear_arith)
                requires
                    w <= 0xFFFF_FFFF,
                    max_px <= 0xFFFF_FFFF,
            ;
        }
        let scaled: u64 = (w as u64) * (max_px as u64) / (h as u64);
        proof {
            assert((w as int) * (max_px as int) / (h as int) <= max_px as int) by (nonlinear_arith)
                requires
                    w < h,
                    h > 0,
            ;
        }
        (scaled as u32, max_px)
    };
    let layout = image.layout();
    let (rw, rh, pixels) = lanczos3(layout, w, h, image.pixels(), new_w, new_h);
    Image::from_raw(layout, rw, rh, pixels)
}

} // verus!
