//! A decoded image as plain values: its pixel layout, its dimensions and its
//! pixels, one byte per channel, row by row.
use vstd::prelude::*;
use ::image::{DynamicImage, GrayAlphaImage, GrayImage, RgbImage, RgbaImage};

verus! {

/// The channels of an 8-bit pixel: gray; gray and alpha; red, green and
/// blue; red, green, blue and alpha.
#[derive(Debug, Clone, Copy, PartialEq, Eq, Structural)]
pub enum PixelLayout {
    Luma,
    LumaAlpha,
    Rgb,
    Rgba,
}

/// The bytes of one pixel in a layout.
pub open spec fn channels(layout: PixelLayout) -> nat {
    match layout {
        PixelLayout::Luma => 1,
        PixelLayout::LumaAlpha => 2,
        PixelLayout::Rgb => 3,
        PixelLayout::Rgba => 4,
    }
}

/// An 8-bit image: its layout, its size, and its bytes row by row.
pub struct Image {
    layout: PixelLayout,
    width: u32,
    height: u32,
    pixels: Vec<u8>,
}

/// `n` black pixels of three channels each: every byte 0.
pub open spec fn black_rgb_pixels(n: nat) -> Seq<u8> {
    Seq::new(3 * n, |i: int| 0u8)
}

impl Image {
    /// There are as many bytes for each pixel as its layout has channels.
    #[verifier::type_invariant]
    spec fn well_formed(self) -> bool {
        self.pixels@.len() == channels(self.layout) * self.width * self.height
    }

    /// The channels of each pixel.
    pub closed spec fn spec_layout(&self) -> PixelLayout {
        self.layout
    }

    /// Width in pixels.
    pub closed spec fn spec_width(&self) -> u32 {
        self.width
    }

    /// Height in pixels.
    pub closed spec fn spec_height(&self) -> u32 {
        self.height
    }

    /// The bytes, row by row.
    pub closed spec fn spec_pixels(&self) -> Seq<u8> {
        self.pixels@
    }

    /// An image of the given layout and size with the given bytes.
    pub fn from_raw(layout: PixelLayout, width: u32, height: u32, pixels: Vec<u8>) -> (img: Image)
        requires
            pixels@.len() == channels(layout) * width * height,
        ensures
            img.spec_layout() == layout,
            img.spec_width() == width,
            img.spec_height() == height,
            img.spec_pixels() == pixels@,
    {
        Image { layout, width, height, pixels }
    }

    /// The channels of each pixel.
    pub fn layout(&self) -> (l: PixelLayout)
        ensures
            l == self.spec_layout(),
    {
        self.layout
    }

    /// Width in pixels.
    pub fn width(&self) -> (w: u32)
        ensures
            w == self.spec_width(),
    {
        self.width
    }

    /// Height in pixels.
    pub fn height(&self) -> (h: u32)
        ensures
            h == self.spec_height(),
    {
        self.height
    }

    /// The bytes row by row, as many for each pixel as the layout has
    /// channels.
    pub fn pixels(&self) -> (p: &[u8])
        ensures
            p@ == self.spec_pixels(),
            p@.len() == channels(self.spec_layout()) * self.spec_width() * self.spec_height(),
    {
        proof {
            use_type_invariant(self);
        }
        self.pixels.as_slice()
    }

    /// A black RGB image of the given size: every byte 0.
    pub fn new_rgb8(width: u32, height: u32) -> (img: Image)
        requires
            3 * width * height <= usize::MAX,
        ensures
            img.spec_layout() == PixelLayout::Rgb,
            img.spec_width() == width,
            img.spec_height() == height,
            img.spec_pixels() == black_rgb_pixels((width * height) as nat),
    {
        proof {
            assert(3 * width * height == 3 * (width * height)) by (nonlinear_arith);
        }
        let n: usize = (width as usize) * (height as usize) * 3;
        let mut pixels: Vec<u8> = Vec::new();
        let mut i: usize = 0;
        while i < n
            invariant
                n == 3 * (width * height),
                i <= n,
                pixels@.len() == i,
                forall|j: int| 0 <= j < i ==> pixels@[j] == 0u8,
            decreases n - i,
        {
            pixels.push(0u8);
            i = i + 1;
        }
        assert(pixels@ =~= black_rgb_pixels((width * height) as nat));
        Image { layout: PixelLayout::Rgb, width, height, pixels }
    }
}

/// The dimensions that `DynamicImage::resize` gives an image of `width` by
/// `height` asked to fit `nwidth` by `nheight`.
pub uninterp spec fn spec_resize_dimensions(width: u32, height: u32, nwidth: u32, nheight: u32) -> (u32, u32);

/// The bytes that `DynamicImage::resize` with the Lanczos3 filter makes of
/// the 8-bit image of this layout, size and bytes, asked to fit `nwidth` by
/// `nheight`; they keep the layout.
pub uninterp spec fn spec_lanczos3(
    layout: PixelLayout,
    width: u32,
    height: u32,
    pixels: Seq<u8>,
    nwidth: u32,
    nheight: u32,
) -> Seq<u8>;

/// `DynamicImage::resize` with the Lanczos3 filter, on the 8-bit image of
/// this layout and these bytes: the image unchanged when asked for its own
/// size, else scaled, keeping its aspect ratio, to the dimensions that the
/// crate computes, in the same layout. As its documentation says, the result
/// fits within bounds of at least 1; the source gives a side of 0 the size 1,
/// so a bound of 0 gives a 1 by 1 image.
#[verifier::external_body]
pub(crate) fn lanczos3(
    layout: PixelLayout,
    width: u32,
    height: u32,
    pixels: &[u8],
    nwidth: u32,
    nheight: u32,
) -> (r: (u32, u32, Vec<u8>))
    requires
        pixels@.len() == channels(layout) * width * height,
    ensures
        (nwidth == width && nheight == height) ==> (r.0 == width && r.1 == height && r.2@ == pixels@),
        !(nwidth == width && nheight == height) ==> ((r.0, r.1) == spec_resize_dimensions(width, height, nwidth, nheight)
            && r.2@ == spec_lanczos3(layout, width, height, pixels@, nwidth, nheight)),
        (nwidth >= 1 && nheight >= 1) ==> (r.0 <= nwidth && r.1 <= nheight),
        (width >= 1 && height >= 1 && (nwidth == 0 || nheight == 0)) ==> (r.0 == 1 && r.1 == 1),
        r.2@.len() == channels(layout) * r.0 * r.1,
{
    let (w, h, v) = (width, height, pixels.to_vec());
    let img = match layout {
        PixelLayout::Luma => DynamicImage::ImageLuma8(GrayImage::from_raw(w, h, v).unwrap()),
        PixelLayout::LumaAlpha => DynamicImage::ImageLumaA8(GrayAlphaImage::from_raw(w, h, v).unwrap()),
        PixelLayout::Rgb => DynamicImage::ImageRgb8(RgbImage::from_raw(w, h, v).unwrap()),
        PixelLayout::Rgba => DynamicImage::ImageRgba8(RgbaImage::from_raw(w, h, v).unwrap()),
    };
    let out = img.resize(nwidth, nheight, ::image::imageops::FilterType::Lanczos3);
    (out.width(), out.height(), out.into_bytes())
}

} // verus!
