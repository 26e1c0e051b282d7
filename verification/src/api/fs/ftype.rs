//! The type of a file-system object.

use vstd::prelude::*;
use crate::raw::vfs::Kind;

verus! {

/// The type of a file-system object.
#[derive(Debug, Clone, Copy, PartialEq, Eq)]
pub struct FileType(pub(crate) Kind);

impl FileType {
    /// The kind of object this type stands for.
    pub closed spec fn kind(&self) -> Kind {
        self.0
    }

    /// The file type of an object of the given kind.
    pub(crate) fn of(kind: Kind) -> (t: FileType)
        ensures
            t.kind() == kind,
    {
        FileType(kind)
    }

    /// Whether this is a directory.
    pub fn is_dir(&self) -> (r: bool)
        ensures
            r == (self.kind() == Kind::Directory),
    {
        self.0 == Kind::Directory
    }

    /// Whether this is a regular file.
    pub fn is_file(&self) -> (r: bool)
        ensures
            r == (self.kind() == Kind::File),
    {
        self.0 == Kind::File
    }

    /// Whether this is a symbolic link.
    pub fn is_symlink(&self) -> (r: bool)
        ensures
            r == (self.kind() == Kind::SymLink),
    {
        self.0 == Kind::SymLink
    }
}

} // verus!
