//! Failure reasons of the layer that maps database rows to structured values
//! and back.
//!
//! Every fallible mapping operation returns [`Result`], whose error is the
//! closed enum [`Error`].

pub mod error;
pub mod laws;

pub use error::{is_custom, Error, ErrorView, Result};
