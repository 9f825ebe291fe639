//! Client for the Buff Market API: session-cookie authentication.
pub mod client;
pub mod decode;
pub mod error;
pub mod models;
