//! Turning errors of one type into responses.

mod error_handler;

pub use error_handler::{handler_name, handler_name_spec, lemma_handler_name, ErrorHandler, ErrorMapper, Handled};
