pub mod bytes;
pub mod text;
pub mod crypto;
pub mod common;
pub mod media;
pub mod client;
pub mod metadata;
pub mod sync;
pub mod store;
