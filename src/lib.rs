//! A client framework for a chat-bot gateway: correlation of requests and
//! replies over one connection, and extractor-based dispatch of events.

pub mod api;
pub mod chain;
pub mod connection;
pub mod correlation;
pub mod dispatch;
pub mod error;
pub mod events;
pub mod extensions;
pub mod json;
pub mod keyword;
pub mod message;
pub mod types;
pub mod xml;
