//! A verified core for a local-network HTTP file-transfer service.
//!
//! The library holds the logic of the service: sanitizing client-supplied
//! filenames, deciding which client addresses are admitted, planning the
//! ingestion of a streamed multipart upload under a body-size budget,
//! resolving download requests, and rendering the directory listing.
//! The surrounding HTTP transport and filesystem I/O live outside the
//! library and hand it plain values.

pub mod config;
pub mod download;
pub mod errors;
pub mod ip;
pub mod listing;
pub mod sanitize;
pub mod store;
pub mod text;
pub mod upload;
