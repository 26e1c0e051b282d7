//! Metadata of a file-system object.

use vstd::prelude::*;
use crate::api::fs::ftype::FileType;
use crate::api::fs::perm::Permissions;
use crate::api::fs::time::Time;
use crate::raw::vfs::{Inode, InodeFlags, Kind};

verus! {

/// Metadata of a file-system object.
#[derive(Debug, Clone, Copy, PartialEq, Eq)]
pub struct Metadata(pub(crate) Inode);

/// The write bits of user, group and others.
pub open spec fn write_mask() -> u64 {
    4u64 | 32u64 | 256u64
}

impl Metadata {
    /// The inode the metadata describes.
    pub closed spec fn inode(&self) -> Inode {
        self.0
    }

    /// The metadata of an inode.
    pub(crate) fn of(inode: Inode) -> (m: Metadata)
        ensures
            m.inode() == inode,
    {
        Metadata(inode)
    }

    /// The file type.
    pub fn file_type(&self) -> (t: FileType)
        ensures
            t.kind() == self.inode().kind,
    {
        FileType::of(self.0.kind)
    }

    /// Whether the object is a directory.
    pub fn is_dir(&self) -> (r: bool)
        ensures
            r == (self.inode().kind == Kind::Directory),
    {
        self.0.kind == Kind::Directory
    }

    /// Whether the object is a regular file.
    pub fn is_file(&self) -> (r: bool)
        ensures
            r == (self.inode().kind == Kind::File),
    {
        self.0.kind == Kind::File
    }

    /// Whether the object is a symbolic link.
    pub fn is_symlink(&self) -> (r: bool)
        ensures
            r == (self.inode().kind == Kind::SymLink),
    {
        self.0.kind == Kind::SymLink
    }

    /// The size of the object in bytes.
    pub fn len(&self) -> (n: u64)
        ensures
            n == self.inode().size,
    {
        self.0.size
    }

    /// The permissions: read-only when none of the user, group or other
    /// write bits is set.
    pub fn permissions(&self) -> (p: Permissions)
        ensures
            p.is_readonly() == (self.inode().flags.0 & write_mask() == 0),
    {
        let mask = InodeFlags::USER_WRITE() | InodeFlags::GROUP_WRITE() | InodeFlags::OTHER_WRITE();
        Permissions::from_readonly((self.0.flags & mask).into_raw() == 0)
    }

    /// The last access time.
    pub fn accessed(&self) -> (t: Time)
        ensures
            t == self.inode().atime,
    {
        self.0.atime
    }

    /// The last modification time.
    pub fn modified(&self) -> (t: Time)
        ensures
            t == self.inode().mtime,
    {
        self.0.mtime
    }

    /// The creation time.
    pub fn created(&self) -> (t: Time)
        ensures
            t == self.inode().ctime,
    {
        self.0.ctime
    }
}

} // verus!
