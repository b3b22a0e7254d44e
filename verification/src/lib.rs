//! The decisions of a small HTTP server: which file a request for a static
//! directory names and whether it is served, which transport a listener
//! description names, how listening on several transports ends, and how
//! errors of one type are mapped into responses.

pub mod text;
pub mod error;
pub mod listener;
pub mod server;
