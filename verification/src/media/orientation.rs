//! Turning an image upright according to its EXIF orientation tag.
use vstd::prelude::*;
use crate::media::image::{channels, Image, PixelLayout};

verus! {

/// Orientations 5 to 8 turn the image a quarter, swapping its sides.
pub open spec fn orientation_swaps_sides(orientation: u16) -> bool {
    5 <= orientation <= 8
}

/// Orientations 2 to 8 change the pixels; 1 and the values that are no
/// orientation leave the image as it is.
pub open spec fn orientation_transforms(orientation: u16) -> bool {
    2 <= orientation <= 8
}

/// The pixel of an image of `width` by `height` that lands at `(x, y)`:
/// 2 mirrors left to right, 3 turns half round, 4 mirrors top to bottom,
/// 5 mirrors along the main diagonal, 6 turns a quarter clockwise, 7 mirrors
/// along the other diagonal, 8 turns a quarter counter-clockwise.
pub open spec fn source_pixel(orientation: u16, width: int, height: int, x: int, y: int) -> (int, int) {
    match orientation {
        2 => (width - 1 - x, y),
        3 => (width - 1 - x, height - 1 - y),
        4 => (x, height - 1 - y),
        5 => (y, x),
        6 => (y, height - 1 - x),
        7 => (width - 1 - y, height - 1 - x),
        8 => (width - 1 - y, x),
        _ => (x, y),
    }
}

/// The width of the image an orientation gives.
pub open spec fn oriented_width(orientation: u16, width: u32, height: u32) -> u32 {
    if orientation_swaps_sides(orientation) {
        height
    } else {
        width
    }
}

/// Byte `c` (red, green, blue, alpha) of pixel `k` of an image in `layout`
/// with bytes `pixels`, taken as RGBA: gray stands for all three colours, and
/// a layout without alpha is opaque.
pub open spec fn rgba_byte(layout: PixelLayout, pixels: Seq<u8>, k: int, c: int) -> u8 {
    match layout {
        PixelLayout::Luma => if c < 3 { pixels[k] } else { 255u8 },
        PixelLayout::LumaAlpha => if c < 3 { pixels[2 * k] } else { pixels[2 * k + 1] },
        PixelLayout::Rgb => if c < 3 { pixels[3 * k + c] } else { 255u8 },
        PixelLayout::Rgba => pixels[4 * k + c],
    }
}

/// The RGBA bytes of an image in `layout` of `width` by `height` with bytes
/// `pixels` after the orientation: byte `c` of the pixel at `(x, y)` of the
/// result is RGBA byte `c` of the input pixel
/// `source_pixel(orientation, .., x, y)`.
pub open spec fn oriented_pixels(orientation: u16, layout: PixelLayout, width: u32, height: u32, pixels: Seq<u8>) -> Seq<u8> {
    let ow = oriented_width(orientation, width, height) as int;
    Seq::new(
        (4 * width * height) as nat,
        |i: int|
            {
                let k = i / 4;
                let (sx, sy) = source_pixel(orientation, width as int, height as int, k % ow, k / ow);
                rgba_byte(layout, pixels, sy * width + sx, i % 4)
            },
    )
}

/// The index bounds of one byte of the result.
proof fn lemma_pixel_index(i: int, ow: int, oh: int)
    requires
        0 <= i < 4 * ow * oh,
        ow >= 0,
        oh >= 0,
    ensures
        ow > 0,
        oh > 0,
        0 <= (i / 4) % ow < ow,
        0 <= (i / 4) / ow < oh,
{
    assert(ow > 0 && oh > 0) by (nonlinear_arith)
        requires
            0 <= i < 4 * ow * oh,
            ow >= 0,
            oh >= 0,
    ;
    assert((i / 4) < ow * oh) by (nonlinear_arith)
        requires
            0 <= i < 4 * ow * oh,
    ;
    assert((i / 4) / ow < oh) by (nonlinear_arith)
        requires
            0 <= i / 4 < ow * oh,
            ow > 0,
    ;
}

/// A source pixel lies within the input.
proof fn lemma_source_index(sx: int, sy: int, w: int, h: int)
    requires
        0 <= sx < w,
        0 <= sy < h,
    ensures
        0 <= sy * w <= sy * w + sx < w * h,
{
    assert(0 <= sy * w <= sy * w + sx < w * h) by (nonlinear_arith)
        requires
            0 <= sx < w,
            0 <= sy < h,
    ;
}

/// RGBA byte `c` of pixel `k` of the `count` pixels in `layout` that `src`
/// holds.
fn rgba_byte_at(layout: PixelLayout, src: &[u8], count: usize, k: usize, c: usize) -> (b: u8)
    requires
        src@.len() == channels(layout) * count,
        k < count,
        c < 4,
    ensures
        b == rgba_byte(layout, src@, k as int, c as int),
{
    let len = src.len();
    proof {
        let ch = channels(layout) as int;
        assert(len == ch * count);
        assert(ch * k + ch <= ch * count) by (nonlinear_arith)
            requires
                k < count,
                ch >= 1,
        ;
    }
    match layout {
        PixelLayout::Luma => if c < 3 { src[k] } else { 255u8 },
        PixelLayout::LumaAlpha => if c < 3 { src[2 * k] } else { src[2 * k + 1] },
        PixelLayout::Rgb => if c < 3 { src[3 * k + c] } else { 255u8 },
        PixelLayout::Rgba => src[4 * k + c],
    }
}

/// Applies an EXIF orientation: 2 mirrors, 3 turns half round, 4 flips, 5
/// turns clockwise and mirrors, 6 turns clockwise, 7 turns counter-clockwise
/// and mirrors, 8 turns counter-clockwise, each giving an RGBA image; any
/// other value leaves the image as it is.
pub fn apply_orientation(image: Image, orientation: u16) -> (r: Image)
    requires
        orientation_transforms(orientation) ==> 4 * image.spec_width() * image.spec_height() <= usize::MAX,
    ensures
        !orientation_transforms(orientation) ==> r == image,
        orientation_transforms(orientation) ==> r.spec_layout() == PixelLayout::Rgba && r.spec_pixels()
            == oriented_pixels(
            orientation,
            image.spec_layout(),
            image.spec_width(),
            image.spec_height(),
            image.spec_pixels(),
        ),
        orientation_swaps_sides(orientation) ==> r.spec_width() == image.spec_height() && r.spec_height() == image.spec_width(),
        !orientation_swaps_sides(orientation) ==> r.spec_width() == image.spec_width() && r.spec_height() == image.spec_height(),
{
    if orientation < 2 || orientation > 8 {
        return image;
    }
    let layout = image.layout();
    let w = image.width();
    let h = image.height();
    let (ow, oh) = if orientation >= 5 { (h, w) } else { (w, h) };
    let src = image.pixels();
    let ghost expected = oriented_pixels(orientation, layout, w, h, src@);
    proof {
        assert(4 * ow * oh == 4 * w * h) by (nonlinear_arith)
            requires
                (ow == w && oh == h) || (ow == h && oh == w),
        ;
        assert(4 * w * h == 4 * (w * h)) by (nonlinear_arith);
        assert(channels(layout) * w * h == channels(layout) * (w * h)) by (nonlinear_arith);
    }
    let wh: usize = (w as usize) * (h as usize);
    let n: usize = 4 * wh;
    let mut out: Vec<u8> = Vec::new();
    let mut i: usize = 0;
    while i < n
        invariant
            2 <= orientation <= 8,
            src@.len() == channels(layout) * wh,
            wh == w * h,
            n == 4 * w * h,
            n == 4 * (w * h),
            n == 4 * ow * oh,
            ow == oriented_width(orientation, w, h),
            orientation_swaps_sides(orientation) ==> (ow == h && oh == w),
            !orientation_swaps_sides(orientation) ==> (ow == w && oh == h),
            expected == oriented_pixels(orientation, layout, w, h, src@),
            i <= n,
            out@.len() == i,
            forall|j: int| 0 <= j < i ==> out@[j] == expected[j],
        decreases n - i,
    {
        proof {
            lemma_pixel_index(i as int, ow as int, oh as int);
        }
        let k = i / 4;
        let c = i % 4;
        let x = k % (ow as usize);
        let y = k / (ow as usize);
        let wu = w as usize;
        let hu = h as usize;
        let (sx, sy): (usize, usize) = match orientation {
            2 => (wu - 1 - x, y),
            3 => (wu - 1 - x, hu - 1 - y),
            4 => (x, hu - 1 - y),
            5 => (y, x),
            6 => (y, hu - 1 - x),
            7 => (wu - 1 - y, hu - 1 - x),
            _ => (wu - 1 - y, x),
        };
        proof {
            lemma_source_index(sx as int, sy as int, w as int, h as int);
            assert((sx as int, sy as int) == source_pixel(orientation, w as int, h as int, x as int, y as int));
        }
        let p = sy * wu + sx;
        let byte = rgba_byte_at(layout, src, wh, p, c);
        out.push(byte);
        i = i + 1;
    }
    assert(out@ =~= expected);
    Image::from_raw(PixelLayout::Rgba, ow, oh, out)
}

} // verus!
