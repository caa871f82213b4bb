pub mod error;
pub mod cipher;
pub mod magic;
