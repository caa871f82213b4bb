pub mod types;
pub mod primitives;
pub mod error;
pub mod aead;
pub mod key;
pub mod kdf;
pub mod seal;
pub mod util;
