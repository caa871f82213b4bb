pub mod image;
pub mod error;
pub mod codec;
pub mod orientation;
pub mod resize;
pub mod exif;
