//! Client for the DMarket API: Ed25519-signed requests.
pub mod client;
pub mod endpoints;
pub mod error;
pub mod handlers;
pub mod models;
pub mod profile;
pub mod responses;
