pub mod error;
pub mod upload;
pub mod auth;
pub mod device;
pub mod state;
