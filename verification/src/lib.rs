//! A verified core for a small media-download pipeline.
//!
//! The library builds the request body sent to a resolver service,
//! interprets the resolver's JSON answer, and derives the destination
//! file path from the stream response's metadata. Network and file
//! I/O live outside the library; every function here carries a proved
//! contract.

pub mod config;
pub mod error;
pub mod request;
pub mod resolver;
pub mod stream;
pub mod strutil;
