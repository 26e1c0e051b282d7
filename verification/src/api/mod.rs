//! High-level API resembling the Rust standard library.

pub mod env;
pub mod fs;
pub mod path;
pub mod path_laws;
pub mod task;
