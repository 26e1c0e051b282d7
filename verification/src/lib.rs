//! Kernel-side standard library: path manipulation, file-system operation
//! drivers, task configuration and the plain data types of the kernel ABI.

pub mod api;
pub mod raw;
pub mod io;
pub mod text;
pub mod front;
pub mod sugar;
pub mod elf;
