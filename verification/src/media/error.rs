//! Errors of image handling.
use vstd::prelude::*;

verus! {

/// What went wrong while handling an image.
#[derive(Debug, Clone)]
pub enum ImageError {
    UnsupportedFormat,
    DecodeError(String),
    ExifError(String),
}

/// The human-readable message of an error.
pub open spec fn image_error_message(e: ImageError) -> Seq<char> {
    match e {
        ImageError::UnsupportedFormat => "unsupported image format"@,
        ImageError::DecodeError(s) => "failed to decode image: "@ + s@,
        ImageError::ExifError(s) => "failed to parse EXIF: "@ + s@,
    }
}

impl ImageError {
    /// The human-readable message of this error.
    pub fn to_string(&self) -> (s: String)
        ensures
            s@ == image_error_message(*self),
    {
        match self {
            ImageError::UnsupportedFormat => String::from_str("unsupported image format"),
            ImageError::DecodeError(s) => {
                let mut m = String::from_str("failed to decode image: ");
                m.append(s.as_str());
                m
            },
            ImageError::ExifError(s) => {
                let mut m = String::from_str("failed to parse EXIF: ");
                m.append(s.as_str());
                m
            },
        }
    }
}

} // verus!
