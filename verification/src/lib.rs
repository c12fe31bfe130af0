//! Verified core of an AI web-search client that talks to any chat
//! completion service in the OpenAI format.

pub mod text;
pub mod error;
pub mod config;
pub mod thinking;
pub mod chat;
pub mod client;
pub mod call;
pub mod stream;
pub mod laws;

pub use client::AIClient;
pub use config::AIConfig;
pub use error::AISearchError;
