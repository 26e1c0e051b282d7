//! The task's environment.

pub use crate::api::env::current_dir;
