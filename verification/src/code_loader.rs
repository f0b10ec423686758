//! The errors of loading source text.

pub mod loader;
pub mod static_files;
