//! Request orchestration for a command-line client of a remote AI service:
//! request framing, response reading, the credential-refresh retry policy,
//! streamed chat accumulation and image-asset naming.

pub mod message;
pub mod asset;
pub mod error;
pub mod json;
pub mod response;
pub mod policy;
pub mod request;
pub mod chat;
pub mod title;
pub mod flags;
pub mod credential;
