pub mod time;
pub mod config;
pub mod error;
pub mod result;
