//! Serving files from a directory.

pub mod fs_path;
mod serve_dir;

pub use serve_dir::{lemma_serve_status, lemma_status_codes, requested_path, serve_status, status_code, ServeAction, ServeDir, Status};
