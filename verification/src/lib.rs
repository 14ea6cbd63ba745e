//! A verified client core for an HTTP/JSON completion API.
//!
//! The crate models the parts every endpoint shares: a JSON value codec,
//! an envelope decoder that tells success payloads from structured API
//! errors, an incremental decoder for streamed event frames, and the
//! configuration/header wiring of the client.  The surrounding I/O (the
//! actual HTTP transport, the command line) lives outside this library.

pub mod client;
pub mod config;
pub mod envelope;
pub mod error;
pub mod json;
pub mod stream;
pub mod types;

pub use client::{Body, Client, FormPart, Method, MultipartForm, RequestPlan, ToJson};
pub use envelope::{decode, FromJson};
pub use error::{Error, ErrorMessage, RequestError};
pub use json::Json;
pub use stream::{EventStream, Frame};
