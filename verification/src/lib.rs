//! The decisions of a chat-completion client, kept apart from the network.
//!
//! The crate prepares the one request of a call (endpoint, credential
//! headers, payload) and judges what came back; sending is left to the
//! caller, who hands the outcome of the exchange back as a plain value.

pub mod client;
pub mod config;
pub mod error;
pub mod exchange;
pub mod headers;
pub mod message;
