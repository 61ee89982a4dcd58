//! A client core for a generative-AI HTTP API: configuration of the two
//! deployment backends, request encoding (JSON or multipart), a retry
//! controller, and decoders for single-shot and server-sent-event responses.
//! Each function states its behaviour in its contract and is verified.

pub mod chat;
pub mod config;
pub mod error;
pub mod inputs;
pub mod json;
pub mod multipart;
pub mod request;
pub mod response;
pub mod retry;
pub mod stream;
pub mod types;
