//! Client for the CSFloat API: API-key authentication.
pub mod client;
pub mod decode;
pub mod error;
pub mod models;
