//! Handlers that are ready to use.

pub mod static_files;
