//! Decoding images from bytes and encoding them as JPEG.
use vstd::prelude::*;
use crate::media::error::ImageError;
use crate::media::image::{channels, Image, PixelLayout};
use ::image::{guess_format, ImageDecoder, DynamicImage, GrayAlphaImage, GrayImage, ImageFormat, ImageReader, RgbImage, RgbaImage};
use std::io::Cursor;
use crate::text::str_eq;

verus! {

/// The formats whose MIME types the decoder names explicitly.
#[derive(Debug, Clone, Copy, PartialEq, Eq, Structural)]
pub enum KnownFormat {
    Jpeg,
    Png,
    WebP,
}

/// How the decoder picks the format: the one a MIME type names, or the one
/// the leading bytes announce.
#[derive(Debug, Clone, Copy, PartialEq, Eq, Structural)]
pub enum DecodeFormat {
    Known(KnownFormat),
    Guessed,
}

/// Whether `image::guess_format` recognizes a format in the leading bytes of
/// `source`.
pub uninterp spec fn spec_format_guessed(source: Seq<u8>) -> bool;

/// Whether the image that the decoder for the format picked as `format`
/// finds in `source` has colour and has alpha (`ColorType::has_color`,
/// `ColorType::has_alpha` of the decoder's colour type), or `None` when no
/// decoder can be made of it.
pub uninterp spec fn spec_decoded_color(source: Seq<u8>, format: DecodeFormat) -> Option<(bool, bool)>;

/// The image that `ImageReader::decode` makes of `source` in the format
/// picked as `format`, converted to eight bits a channel in `layout`
/// (`into_luma8`, `into_luma_alpha8`, `into_rgb8` or `into_rgba8`), as
/// width, height and bytes, or `None` when decoding fails.
pub uninterp spec fn spec_decoded_image(source: Seq<u8>, format: DecodeFormat, layout: PixelLayout) -> Option<(u32, u32, Seq<u8>)>;

/// The view of a decoding outcome: width, height and bytes.
pub open spec fn decoded_view(r: Result<(u32, u32, Vec<u8>), String>) -> Option<(u32, u32, Seq<u8>)> {
    match r {
        Ok((w, h, p)) => Some((w, h, p@)),
        Err(_) => None,
    }
}

/// The view of a colour reading: whether there is colour and alpha.
pub open spec fn color_view(r: Result<(bool, bool), String>) -> Option<(bool, bool)> {
    match r {
        Ok(c) => Some(c),
        Err(_) => None,
    }
}

/// A decoded image in `layout` has as many bytes for each pixel as the
/// layout has channels.
pub open spec fn layout_sized(r: Result<(u32, u32, Vec<u8>), String>, layout: PixelLayout) -> bool {
    r matches Ok((w, h, p)) ==> p@.len() == channels(layout) * w * h
}

/// `ImageReader::with_format(Cursor::new(source), format).into_decoder()` in
/// the known format, then whether the decoder's colour type has colour and
/// alpha; the error becomes its message.
#[verifier::external_body]
fn color_known(source: &[u8], kind: KnownFormat) -> (r: Result<(bool, bool), String>)
    ensures
        color_view(r) == spec_decoded_color(source@, DecodeFormat::Known(kind)),
{
    let format = match kind {
        KnownFormat::Jpeg => ImageFormat::Jpeg,
        KnownFormat::Png => ImageFormat::Png,
        KnownFormat::WebP => ImageFormat::WebP,
    };
    let decoder = ImageReader::with_format(Cursor::new(source), format).into_decoder().map_err(|e| e.to_string())?;
    let color = decoder.color_type();
    Ok((color.has_color(), color.has_alpha()))
}

/// `image::guess_format(source)`, then, when it recognizes a format,
/// `ImageReader::with_format(Cursor::new(source), format).into_decoder()` and
/// whether the decoder's colour type has colour and alpha; the error becomes
/// its message.
#[verifier::external_body]
fn color_guessed(source: &[u8]) -> (r: Option<Result<(bool, bool), String>>)
    ensures
        r is Some <==> spec_format_guessed(source@),
        r matches Some(c) ==> color_view(c) == spec_decoded_color(source@, DecodeFormat::Guessed),
{
    let format = guess_format(source).ok()?;
    match ImageReader::with_format(Cursor::new(source), format).into_decoder() {
        Ok(decoder) => Some(Ok((decoder.color_type().has_color(), decoder.color_type().has_alpha()))),
        Err(e) => Some(Err(e.to_string())),
    }
}

/// `ImageReader::with_format(Cursor::new(source), format).decode()` in the
/// known format, the image converted to eight bits a channel in `layout`;
/// the error becomes its message.
#[verifier::external_body]
fn decode_known(source: &[u8], kind: KnownFormat, layout: PixelLayout) -> (r: Result<(u32, u32, Vec<u8>), String>)
    ensures
        decoded_view(r) == spec_decoded_image(source@, DecodeFormat::Known(kind), layout),
        layout_sized(r, layout),
{
    let format = match kind {
        KnownFormat::Jpeg => ImageFormat::Jpeg,
        KnownFormat::Png => ImageFormat::Png,
        KnownFormat::WebP => ImageFormat::WebP,
    };
    let p = ImageReader::with_format(Cursor::new(source), format).decode().map_err(|e| e.to_string())?;
    let (w, h) = (p.width(), p.height());
    let bytes = match layout {
        PixelLayout::Luma => p.into_luma8().into_raw(),
        PixelLayout::LumaAlpha => p.into_luma_alpha8().into_raw(),
        PixelLayout::Rgb => p.into_rgb8().into_raw(),
        PixelLayout::Rgba => p.into_rgba8().into_raw(),
    };
    Ok((w, h, bytes))
}

/// `image::guess_format(source)`, then, when it recognizes a format,
/// `ImageReader::with_format(Cursor::new(source), format).decode()`, the
/// image converted to eight bits a channel in `layout`; the error becomes
/// its message.
#[verifier::external_body]
fn decode_guessed(source: &[u8], layout: PixelLayout) -> (r: Option<Result<(u32, u32, Vec<u8>), String>>)
    ensures
        r is Some <==> spec_format_guessed(source@),
        r matches Some(d) ==> (decoded_view(d) == spec_decoded_image(source@, DecodeFormat::Guessed, layout)
            && layout_sized(d, layout)),
{
    let format = guess_format(source).ok()?;
    let p = match ImageReader::with_format(Cursor::new(source), format).decode() {
        Ok(p) => p,
        Err(e) => return Some(Err(e.to_string())),
    };
    let (w, h) = (p.width(), p.height());
    let bytes = match layout {
        PixelLayout::Luma => p.into_luma8().into_raw(),
        PixelLayout::LumaAlpha => p.into_luma_alpha8().into_raw(),
        PixelLayout::Rgb => p.into_rgb8().into_raw(),
        PixelLayout::Rgba => p.into_rgba8().into_raw(),
    };
    Some(Ok((w, h, bytes)))
}

/// The 8-bit layout that keeps an image's kind: gray or colour, with or
/// without alpha.
pub open spec fn layout_for(has_color: bool, has_alpha: bool) -> PixelLayout {
    match (has_color, has_alpha) {
        (false, false) => PixelLayout::Luma,
        (false, true) => PixelLayout::LumaAlpha,
        (true, false) => PixelLayout::Rgb,
        (true, true) => PixelLayout::Rgba,
    }
}

/// The 8-bit layout that keeps an image's kind: gray or colour, with or
/// without alpha.
pub fn choose_layout(has_color: bool, has_alpha: bool) -> (l: PixelLayout)
    ensures
        l == layout_for(has_color, has_alpha),
{
    match (has_color, has_alpha) {
        (false, false) => PixelLayout::Luma,
        (false, true) => PixelLayout::LumaAlpha,
        (true, false) => PixelLayout::Rgb,
        (true, true) => PixelLayout::Rgba,
    }
}

/// The JPEG file that `DynamicImage::write_to` writes for the 8-bit image of
/// this layout, size and bytes.
pub uninterp spec fn spec_jpeg(layout: PixelLayout, width: u32, height: u32, pixels: Seq<u8>) -> Seq<u8>;

/// `DynamicImage::write_to` a byte buffer as JPEG, for the 8-bit image of
/// this layout and these bytes (the crate drops an alpha channel, which JPEG
/// lacks, and writes a gray image as gray). The source fails only for a side
/// of 0 or above 65535 pixels, which `requires` leaves out; its output begins
/// with the JPEG start-of-image marker FF D8.
#[verifier::external_body]
fn write_jpeg(layout: PixelLayout, width: u32, height: u32, pixels: &[u8]) -> (bytes: Vec<u8>)
    requires
        1 <= width <= 65535,
        1 <= height <= 65535,
        pixels@.len() == channels(layout) * width * height,
    ensures
        bytes@ == spec_jpeg(layout, width, height, pixels@),
        bytes@.len() >= 2,
        bytes@[0] == 0xFFu8,
        bytes@[1] == 0xD8u8,
{
    let (w, h, v) = (width, height, pixels.to_vec());
    let img = match layout {
        PixelLayout::Luma => DynamicImage::ImageLuma8(GrayImage::from_raw(w, h, v).unwrap()),
        PixelLayout::LumaAlpha => DynamicImage::ImageLumaA8(GrayAlphaImage::from_raw(w, h, v).unwrap()),
        PixelLayout::Rgb => DynamicImage::ImageRgb8(RgbImage::from_raw(w, h, v).unwrap()),
        PixelLayout::Rgba => DynamicImage::ImageRgba8(RgbaImage::from_raw(w, h, v).unwrap()),
    };
    let mut out = Vec::new();
    img.write_to(&mut Cursor::new(&mut out), ImageFormat::Jpeg).unwrap();
    out
}

/// The format that a MIME type names explicitly, if any.
pub open spec fn mime_known_format(mime: Seq<char>) -> Option<KnownFormat> {
    if mime == "image/jpeg"@ || mime == "image/jpg"@ {
        Some(KnownFormat::Jpeg)
    } else if mime == "image/png"@ {
        Some(KnownFormat::Png)
    } else if mime == "image/webp"@ {
        Some(KnownFormat::WebP)
    } else {
        None
    }
}

/// The MIME types of formats the decoder refuses outright.
pub open spec fn mime_refused(mime: Seq<char>) -> bool {
    mime == "image/heic"@ || mime == "image/heif"@
}

/// What decoding `source` in the format picked as `format` gives: a
/// `DecodeError` when no decoder can be made of it; else the image decoded in
/// the 8-bit layout that keeps its kind, or a `DecodeError` when that
/// decoding fails.
pub open spec fn decode_outcome(r: Result<Image, ImageError>, source: Seq<u8>, format: DecodeFormat) -> bool {
    match spec_decoded_color(source, format) {
        None => r matches Err(ImageError::DecodeError(_)),
        Some((has_color, has_alpha)) => {
            let layout = layout_for(has_color, has_alpha);
            match spec_decoded_image(source, format, layout) {
                Some((w, h, p)) => r matches Ok(img) && img.spec_layout() == layout && img.spec_width() == w
                    && img.spec_height() == h && img.spec_pixels() == p,
                None => r matches Err(ImageError::DecodeError(_)),
            }
        },
    }
}

/// Decodes an image in the format its MIME type names; for another MIME type
/// the format is guessed from the bytes. HEIC/HEIF, and bytes of no known
/// format, are `UnsupportedFormat`; a failed decoding is `DecodeError`.
pub fn decode_image(source: &[u8], mime_type: &str) -> (r: Result<Image, ImageError>)
    ensures
        match mime_known_format(mime_type@) {
            Some(kind) => decode_outcome(r, source@, DecodeFormat::Known(kind)),
            None => if mime_refused(mime_type@) || !spec_format_guessed(source@) {
                r matches Err(ImageError::UnsupportedFormat)
            } else {
                decode_outcome(r, source@, DecodeFormat::Guessed)
            },
        },
{
    let known = if str_eq(mime_type, "image/jpeg") || str_eq(mime_type, "image/jpg") {
        Some(KnownFormat::Jpeg)
    } else if str_eq(mime_type, "image/png") {
        Some(KnownFormat::Png)
    } else if str_eq(mime_type, "image/webp") {
        Some(KnownFormat::WebP)
    } else {
        None
    };
    let color = match known {
        Some(kind) => color_known(source, kind),
        None => {
            if str_eq(mime_type, "image/heic") || str_eq(mime_type, "image/heif") {
                return Err(ImageError::UnsupportedFormat);
            }
            match color_guessed(source) {
                Some(c) => c,
                None => return Err(ImageError::UnsupportedFormat),
            }
        },
    };
    let layout = match color {
        Ok((has_color, has_alpha)) => choose_layout(has_color, has_alpha),
        Err(message) => return Err(ImageError::DecodeError(message)),
    };
    let decoded = match known {
        Some(kind) => decode_known(source, kind, layout),
        None => match decode_guessed(source, layout) {
            Some(d) => d,
            None => return Err(ImageError::UnsupportedFormat),
        },
    };
    match decoded {
        Ok((width, height, pixels)) => Ok(Image::from_raw(layout, width, height, pixels)),
        Err(message) => Err(ImageError::DecodeError(message)),
    }
}

/// Encodes an image as JPEG: the file that the `image` crate writes for its
/// pixels. The quality is clamped to 1..=100 but the encoder's default
/// quality is used.
pub fn encode_jpeg(image: &Image, quality: u8) -> (bytes: Vec<u8>)
    requires
        1 <= image.spec_width() <= 65535,
        1 <= image.spec_height() <= 65535,
    ensures
        bytes@ == spec_jpeg(image.spec_layout(), image.spec_width(), image.spec_height(), image.spec_pixels()),
        bytes@.len() >= 2,
        bytes@[0] == 0xFFu8,
        bytes@[1] == 0xD8u8,
{
    let _quality = if quality < 1 {
        1u8
    } else if quality > 100 {
        100u8
    } else {
        quality
    };
    write_jpeg(image.layout(), image.width(), image.height(), image.pixels())
}

} // verus!
