//! File-system operations.
//!
//! Each operation that talks to the kernel is a step machine: it starts from
//! its arguments, asks for one kernel call at a time ([`Request`]), takes the
//! kernel's answer ([`Reply`]) and decides what to do next, until it finishes
//! with the operation's result.

pub mod ftype;
pub mod meta;
pub mod perm;
pub mod time;

pub use ftype::FileType;
pub use meta::Metadata;
pub use perm::Permissions;
pub use time::{FileTimes, Time};

pub mod ops;
pub use ops::{Reply, ReplyKind, Request, Step};
pub mod query;
pub use query::{accessed, created, metadata, modified, path_exists, symlink_metadata};
pub mod canon;
pub use canon::canonicalize;
pub mod dent;
pub use dent::{DirEntry, ReadDir};
pub mod read;
pub use read::{read, read_dir, read_link, read_to_string};
pub mod write;
pub use write::{create_dir, create_dir_all};
pub mod remove;
pub use remove::{remove_dir, remove_dir_all, remove_file};
pub mod rename;
pub use rename::rename;
