//! Conversation state and agentic execution for a command-line chat assistant.
//!
//! The crate models one conversation with a remote completion endpoint: the
//! typed message turns, the session-scoped bounded context cache, the
//! resolution of a configured base URL into a concrete endpoint, the
//! completion request/response exchange, and the bounded tool-calling agent
//! loop. All state transitions and data transformations are specified and
//! verified; the surrounding process (argument parsing, file and network
//! I/O) lives outside the library and hands it plain values.

pub mod agent;
pub mod args;
pub mod client;
pub mod codec;
pub mod config;
pub mod endpoint;
pub mod image;
pub mod json;
pub mod message;
pub mod printer;
pub mod request;
pub mod response;
pub mod store;
pub mod transcript;
pub mod text;
