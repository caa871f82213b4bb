pub mod error;
pub mod key;
pub mod migrate;
pub mod cursor;
