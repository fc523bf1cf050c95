//! A synchronous client-side adapter for the Internet Archive's S3-like,
//! metadata and task-queue interfaces.
//!
//! The crate holds the protocol layer: how typed headers, credentials and task
//! filters become wire-level requests, how transport errors are classified, and
//! how a task-search response body becomes a typed page with its continuation
//! cursor. Sending a request and reading a response body are left to the caller.

pub mod config;
pub mod credentials;
pub mod foreign;
pub mod headers;
pub mod http;
pub mod identifier;
pub mod item;
pub mod json;
pub mod params;
pub mod tasks;
pub mod text;

pub use config::DEFAULT_USER_AGENT;
pub use credentials::Credentials;
pub use identifier::validate_identifier;
pub use item::{Item, ItemError};
