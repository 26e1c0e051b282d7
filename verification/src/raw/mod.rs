//! The library's view of the kernel's data types.

pub mod exec;
pub mod module;
pub mod vfs;
