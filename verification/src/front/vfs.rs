//! The kernel's side of the virtual file system: the same data types as
//! the library's, as the kernel declares them.

use vstd::prelude::*;
use crate::raw::vfs::{flag_name, is_named_flag, spec_level, spec_with_level};

verus! {

/// An error reported by a file system, as the kernel declares it.
#[derive(Debug)]
pub enum KeFsError {
    Unknown,
    NotAFile,
    OutOfBounds,
    NoEntry,
    NotADirectory,
    Found,
    AlreadyExists,
    InvalidPath,
    NotMounted,
    NotEmpty,
}

impl KeFsError {
    /// The numeric code of the error.
    pub fn code(&self) -> (c: usize)
        ensures
            c == match *self {
                KeFsError::Unknown => 0usize,
                KeFsError::NotAFile => 1,
                KeFsError::OutOfBounds => 2,
                KeFsError::NoEntry => 3,
                KeFsError::NotADirectory => 4,
                KeFsError::Found => 5,
                KeFsError::AlreadyExists => 6,
                KeFsError::InvalidPath => 7,
                KeFsError::NotMounted => 8,
                KeFsError::NotEmpty => 9,
            },
    {
        match *self {
            KeFsError::Unknown => 0,
            KeFsError::NotAFile => 1,
            KeFsError::OutOfBounds => 2,
            KeFsError::NoEntry => 3,
            KeFsError::NotADirectory => 4,
            KeFsError::Found => 5,
            KeFsError::AlreadyExists => 6,
            KeFsError::InvalidPath => 7,
            KeFsError::NotMounted => 8,
            KeFsError::NotEmpty => 9,
        }
    }
}

/// Permission and kind bits of a kernel inode; the top 16 bits hold a level.
#[derive(Debug, Clone, Copy, PartialEq, Eq, Structural)]
pub struct KeInodeFlags(pub u64);

impl KeInodeFlags {
    /// The `DIR` flag.
    #[allow(non_snake_case)]
    pub fn DIR() -> (f: KeInodeFlags)
        ensures
            f.bits() == 1,
    {
        KeInodeFlags(1)
    }
    /// The `USER_READ` flag.
    #[allow(non_snake_case)]
    pub fn USER_READ() -> (f: KeInodeFlags)
        ensures
            f.bits() == 2,
    {
        KeInodeFlags(2)
    }
    /// The `USER_WRITE` flag.
    #[allow(non_snake_case)]
    pub fn USER_WRITE() -> (f: KeInodeFlags)
        ensures
            f.bits() == 4,
    {
        KeInodeFlags(4)
    }
    /// The `USER_EXEC` flag.
    #[allow(non_snake_case)]
    pub fn USER_EXEC() -> (f: KeInodeFlags)
        ensures
            f.bits() == 8,
    {
        KeInodeFlags(8)
    }
    /// The `GROUP_READ` flag.
    #[allow(non_snake_case)]
    pub fn GROUP_READ() -> (f: KeInodeFlags)
        ensures
            f.bits() == 16,
    {
        KeInodeFlags(16)
    }
    /// The `GROUP_WRITE` flag.
    #[allow(non_snake_case)]
    pub fn GROUP_WRITE() -> (f: KeInodeFlags)
        ensures
            f.bits() == 32,
    {
        KeInodeFlags(32)
    }
    /// The `GROUP_EXEC` flag.
    #[allow(non_snake_case)]
    pub fn GROUP_EXEC() -> (f: KeInodeFlags)
        ensures
            f.bits() == 64,
    {
        KeInodeFlags(64)
    }
    /// The `OTHER_READ` flag.
    #[allow(non_snake_case)]
    pub fn OTHER_READ() -> (f: KeInodeFlags)
        ensures
            f.bits() == 128,
    {
        KeInodeFlags(128)
    }
    /// The `OTHER_WRITE` flag.
    #[allow(non_snake_case)]
    pub fn OTHER_WRITE() -> (f: KeInodeFlags)
        ensures
            f.bits() == 256,
    {
        KeInodeFlags(256)
    }
    /// The `OTHER_EXEC` flag.
    #[allow(non_snake_case)]
    pub fn OTHER_EXEC() -> (f: KeInodeFlags)
        ensures
            f.bits() == 512,
    {
        KeInodeFlags(512)
    }
    /// The `LEVEL_READ` flag.
    #[allow(non_snake_case)]
    pub fn LEVEL_READ() -> (f: KeInodeFlags)
        ensures
            f.bits() == 1024,
    {
        KeInodeFlags(1024)
    }
    /// The `LEVEL_WRITE` flag.
    #[allow(non_snake_case)]
    pub fn LEVEL_WRITE() -> (f: KeInodeFlags)
        ensures
            f.bits() == 2048,
    {
        KeInodeFlags(2048)
    }
    /// The `LEVEL_EXEC` flag.
    #[allow(non_snake_case)]
    pub fn LEVEL_EXEC() -> (f: KeInodeFlags)
        ensures
            f.bits() == 4096,
    {
        KeInodeFlags(4096)
    }

    /// The raw bits.
    pub open spec fn bits(self) -> u64 {
        self.0
    }

    /// Flags with the given raw bits.
    pub fn from_raw(value: u64) -> (f: KeInodeFlags)
        ensures
            f.bits() == value,
    {
        KeInodeFlags(value)
    }

    /// The raw bits.
    pub fn into_raw(self) -> (v: u64)
        ensures
            v == self.bits(),
    {
        self.0
    }

    /// Whether the bits are exactly one of the named flags.
    pub fn is_known(&self) -> (r: bool)
        ensures
            r == is_named_flag(self.bits()),
    {
        let v = self.0;
        v == 1 || v == 2 || v == 4 || v == 8 || v == 16 || v == 32 || v == 64 || v == 128 || v
            == 256 || v == 512 || v == 1024 || v == 2048 || v == 4096
    }

    /// The name of the flag the bits are exactly equal to, or `Unknown`.
    pub fn name(&self) -> (s: &'static str)
        ensures
            s@ == flag_name(self.bits()),
    {
        let v = self.0;
        if v == 1 {
            "DIR"
        } else if v == 2 {
            "USER_READ"
        } else if v == 4 {
            "USER_WRITE"
        } else if v == 8 {
            "USER_EXEC"
        } else if v == 16 {
            "GROUP_READ"
        } else if v == 32 {
            "GROUP_WRITE"
        } else if v == 64 {
            "GROUP_EXEC"
        } else if v == 128 {
            "OTHER_READ"
        } else if v == 256 {
            "OTHER_WRITE"
        } else if v == 512 {
            "OTHER_EXEC"
        } else if v == 1024 {
            "LEVEL_READ"
        } else if v == 2048 {
            "LEVEL_WRITE"
        } else if v == 4096 {
            "LEVEL_EXEC"
        } else {
            "Unknown"
        }
    }

    /// The level held in the top 16 bits.
    pub fn level(self) -> (l: u16)
        ensures
            l == spec_level(self.bits()),
    {
        (self.0 >> 48) as u16
    }

    /// Replaces the level in the top 16 bits, keeping the other 48.
    pub fn set_level(&mut self, level: u16)
        ensures
            final(self).bits() == spec_with_level(old(self).bits(), level),
    {
        let v = self.0;
        assert(v & (!0u64 << 16 >> 16) == v & 0x0000_ffff_ffff_ffff) by (bit_vector);
        self.0 &= !0u64 << 16 >> 16;
        self.0 |= (level as u64) << 48;
    }
}


/// Identifies a kernel inode: its number and the id of its meta-block.
#[derive(Debug, Clone, Copy, PartialEq, Eq, PartialOrd, Ord, Hash, Structural)]
pub struct KeInodeId(pub u32, pub u32);

/// The kind of a file-system object.
#[derive(Debug, Clone, Copy, PartialEq, Eq, Structural)]
pub enum Kind {
    Unknown,
    File,
    Directory,
    Socket,
    Virtual,
    SymLink,
}

impl Kind {
    /// The numeric code of the kind.
    pub fn code(&self) -> (c: u16)
        ensures
            c == match *self {
                Kind::Unknown => 0u16,
                Kind::File => 1,
                Kind::Directory => 2,
                Kind::Socket => 3,
                Kind::Virtual => 4,
                Kind::SymLink => 5,
            },
    {
        match *self {
            Kind::Unknown => 0,
            Kind::File => 1,
            Kind::Directory => 2,
            Kind::Socket => 3,
            Kind::Virtual => 4,
            Kind::SymLink => 5,
        }
    }
}


/// The attributes of a file-system object.
#[derive(Debug, Clone, Copy, PartialEq, Eq)]
pub struct KeInode {
    pub id: KeInodeId,
    pub kind: Kind,
    pub flags: KeInodeFlags,
    pub size: u64,
    pub uid: u16,
    pub gid: u16,
    pub atime: u64,
    pub mtime: u64,
    pub ctime: u64,
    pub nlink: u32,
    pub private: [u8; 34],
}

/// Whether every attribute of `i` is zero, its kind `Unknown`.
pub open spec fn is_blank_ke_inode(i: KeInode) -> bool {
    &&& i.id == KeInodeId(0, 0)
    &&& i.kind == Kind::Unknown
    &&& i.flags.0 == 0
    &&& i.size == 0
    &&& i.uid == 0
    &&& i.gid == 0
    &&& i.atime == 0
    &&& i.mtime == 0
    &&& i.ctime == 0
    &&& i.nlink == 0
    &&& forall|k: int| 0 <= k < 34 ==> i.private@[k] == 0u8
}

impl KeInode {
    /// An inode with every attribute zero and kind `Unknown`.
    pub fn new() -> (i: KeInode)
        ensures
            is_blank_ke_inode(i),
    {
        KeInode {
            id: KeInodeId(0, 0),
            kind: Kind::Unknown,
            flags: KeInodeFlags(0),
            size: 0,
            uid: 0,
            gid: 0,
            atime: 0,
            mtime: 0,
            ctime: 0,
            nlink: 0,
            private: [0u8; 34],
        }
    }
}

impl Default for KeInode {
    fn default() -> (i: KeInode)
        ensures
            is_blank_ke_inode(i),
    {
        KeInode::new()
    }
}


/// The interface a file system implements for the kernel.
pub trait KeFileSystem {
    fn lookup(&self, dir: KeInodeId, name: &str) -> Option<KeInodeId>;

    fn readdir(&self, dir: KeInodeId, offset: usize) -> Option<(String, KeInodeId)>;

    fn read(&self, file: KeInodeId, offset: usize, buf: &mut [u8]) -> Result<usize, KeFsError>;

    fn write(&self, file: KeInodeId, offset: usize, buf: &[u8]) -> Result<usize, KeFsError>;

    fn truncate(&self, file: KeInodeId, new_size: usize) -> Result<(), KeFsError>;

    fn unlink(&self, dir: KeInodeId, name: &str) -> Result<(), KeFsError>;

    fn link(&self, parent: KeInodeId, name: &str, child: KeInodeId) -> Result<(), KeFsError>;

    fn new(&self, mb_id: u32, inode: KeInode, kind: Kind) -> Result<KeInodeId, KeFsError>;

    fn stat(&self, inode: KeInodeId) -> Option<KeInode>;

    fn set_mb_id(&self, mb_id: u32);
}

/// Identifies a kernel meta-block.
pub type KeMetaBlockId = u32;

/// A mounted file system together with its id.
pub struct KeMetaBlock<F: KeFileSystem> {
    pub id: KeMetaBlockId,
    pub fs: F,
}

impl<F: KeFileSystem> KeMetaBlock<F> {
    /// A meta-block for `fs` with the given id.
    pub fn new(id: KeMetaBlockId, fs: F) -> (m: KeMetaBlock<F>)
        ensures
            m.id == id,
            m.fs == fs,
    {
        KeMetaBlock { id, fs }
    }
}

} // verus!
