pub mod error;
pub mod decrypt;
pub mod diff;
pub mod collections;
pub mod pull;
