//! Client-side protocol logic for the Nextory book service: the login
//! handshake, the catalogue and library requests, the walk over paginated
//! listings and the per-book download pipeline.
//!
//! Nothing in this crate touches the network, the clock or the file system.
//! Every operation that needs one of them is described as a plain value (a
//! [`request::Request`] to send, a [`downloader::Destination`] to write to)
//! and the answer is handed back as a plain value. The one thing that the
//! crate takes from its surroundings is randomness, for the trace ids.
pub mod text;
pub mod api;
pub mod common;
pub mod request;
pub mod randomstring;
pub mod client;
pub mod library;
pub mod catalogue;
pub mod downloader;
pub mod pipeline;
pub mod batch;
pub mod walk;
pub mod login;
