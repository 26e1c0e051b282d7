//! Virtual file system data types: errors, inode flags, inode identifiers,
//! file kinds, inodes, and the interface a file system implements.

use vstd::prelude::*;
use crate::io::ErrorKind;

verus! {

/// An error reported by a file system.
#[derive(Debug, Clone, Copy, PartialEq, Eq, Structural)]
pub enum FsError {
    Unknown,
    NotAFile,
    OutOfBounds,
    NoEntry,
    NotADirectory,
    Found,
    AlreadyExists,
    InvalidPath,
    NotMounted,
    NotEmpty,
}

/// The error kind that a file-system error stands for.
pub open spec fn fs_error_kind(e: FsError) -> ErrorKind {
    match e {
        FsError::Unknown => ErrorKind::Other,
        FsError::NotAFile => ErrorKind::IsADirectory,
        FsError::OutOfBounds => ErrorKind::InvalidInput,
        FsError::NoEntry => ErrorKind::NotFound,
        FsError::NotADirectory => ErrorKind::NotADirectory,
        FsError::Found => ErrorKind::AlreadyExists,
        FsError::AlreadyExists => ErrorKind::AlreadyExists,
        FsError::InvalidPath => ErrorKind::InvalidFilename,
        FsError::NotMounted => ErrorKind::NotConnected,
        FsError::NotEmpty => ErrorKind::DirectoryNotEmpty,
    }
}

impl FsError {
    /// The numeric code of the error.
    pub fn code(&self) -> (c: usize)
        ensures
            c == match *self {
                FsError::Unknown => 0usize,
                FsError::NotAFile => 1,
                FsError::OutOfBounds => 2,
                FsError::NoEntry => 3,
                FsError::NotADirectory => 4,
                FsError::Found => 5,
                FsError::AlreadyExists => 6,
                FsError::InvalidPath => 7,
                FsError::NotMounted => 8,
                FsError::NotEmpty => 9,
            },
    {
        match *self {
            FsError::Unknown => 0,
            FsError::NotAFile => 1,
            FsError::OutOfBounds => 2,
            FsError::NoEntry => 3,
            FsError::NotADirectory => 4,
            FsError::Found => 5,
            FsError::AlreadyExists => 6,
            FsError::InvalidPath => 7,
            FsError::NotMounted => 8,
            FsError::NotEmpty => 9,
        }
    }

    /// The name of the variant.
    pub fn name(&self) -> (s: &'static str)
        ensures
            s@ == fs_error_name(*self),
    {
        match *self {
            FsError::Unknown => "Unknown",
            FsError::NotAFile => "NotAFile",
            FsError::OutOfBounds => "OutOfBounds",
            FsError::NoEntry => "NoEntry",
            FsError::NotADirectory => "NotADirectory",
            FsError::Found => "Found",
            FsError::AlreadyExists => "AlreadyExists",
            FsError::InvalidPath => "InvalidPath",
            FsError::NotMounted => "NotMounted",
            FsError::NotEmpty => "NotEmpty",
        }
    }
}

/// The name of a file-system error variant.
pub open spec fn fs_error_name(e: FsError) -> Seq<char> {
    match e {
        FsError::Unknown => "Unknown"@,
        FsError::NotAFile => "NotAFile"@,
        FsError::OutOfBounds => "OutOfBounds"@,
        FsError::NoEntry => "NoEntry"@,
        FsError::NotADirectory => "NotADirectory"@,
        FsError::Found => "Found"@,
        FsError::AlreadyExists => "AlreadyExists"@,
        FsError::InvalidPath => "InvalidPath"@,
        FsError::NotMounted => "NotMounted"@,
        FsError::NotEmpty => "NotEmpty"@,
    }
}

impl From<FsError> for ErrorKind {
    fn from(e: FsError) -> (k: ErrorKind) {
        match e {
            FsError::Unknown => ErrorKind::Other,
            FsError::NotAFile => ErrorKind::IsADirectory,
            FsError::OutOfBounds => ErrorKind::InvalidInput,
            FsError::NoEntry => ErrorKind::NotFound,
            FsError::NotADirectory => ErrorKind::NotADirectory,
            FsError::Found => ErrorKind::AlreadyExists,
            FsError::AlreadyExists => ErrorKind::AlreadyExists,
            FsError::InvalidPath => ErrorKind::InvalidFilename,
            FsError::NotMounted => ErrorKind::NotConnected,
            FsError::NotEmpty => ErrorKind::DirectoryNotEmpty,
        }
    }
}

impl vstd::std_specs::convert::FromSpecImpl<FsError> for ErrorKind {
    open spec fn obeys_from_spec() -> bool {
        true
    }

    open spec fn from_spec(e: FsError) -> ErrorKind {
        fs_error_kind(e)
    }
}

/// Permission and kind bits of an inode; the top 16 bits hold a level.
#[derive(Debug, Clone, Copy, PartialEq, Eq, Structural)]
pub struct InodeFlags(pub u64);

impl InodeFlags {
    /// The `DIR` flag.
    #[allow(non_snake_case)]
    pub fn DIR() -> (f: InodeFlags)
        ensures
            f.bits() == 1,
    {
        InodeFlags(1)
    }
    /// The `USER_READ` flag.
    #[allow(non_snake_case)]
    pub fn USER_READ() -> (f: InodeFlags)
        ensures
            f.bits() == 2,
    {
        InodeFlags(2)
    }
    /// The `USER_WRITE` flag.
    #[allow(non_snake_case)]
    pub fn USER_WRITE() -> (f: InodeFlags)
        ensures
            f.bits() == 4,
    {
        InodeFlags(4)
    }
    /// The `USER_EXEC` flag.
    #[allow(non_snake_case)]
    pub fn USER_EXEC() -> (f: InodeFlags)
        ensures
            f.bits() == 8,
    {
        InodeFlags(8)
    }
    /// The `GROUP_READ` flag.
    #[allow(non_snake_case)]
    pub fn GROUP_READ() -> (f: InodeFlags)
        ensures
            f.bits() == 16,
    {
        InodeFlags(16)
    }
    /// The `GROUP_WRITE` flag.
    #[allow(non_snake_case)]
    pub fn GROUP_WRITE() -> (f: InodeFlags)
        ensures
            f.bits() == 32,
    {
        InodeFlags(32)
    }
    /// The `GROUP_EXEC` flag.
    #[allow(non_snake_case)]
    pub fn GROUP_EXEC() -> (f: InodeFlags)
        ensures
            f.bits() == 64,
    {
        InodeFlags(64)
    }
    /// The `OTHER_READ` flag.
    #[allow(non_snake_case)]
    pub fn OTHER_READ() -> (f: InodeFlags)
        ensures
            f.bits() == 128,
    {
        InodeFlags(128)
    }
    /// The `OTHER_WRITE` flag.
    #[allow(non_snake_case)]
    pub fn OTHER_WRITE() -> (f: InodeFlags)
        ensures
            f.bits() == 256,
    {
        InodeFlags(256)
    }
    /// The `OTHER_EXEC` flag.
    #[allow(non_snake_case)]
    pub fn OTHER_EXEC() -> (f: InodeFlags)
        ensures
            f.bits() == 512,
    {
        InodeFlags(512)
    }
    /// The `LEVEL_READ` flag.
    #[allow(non_snake_case)]
    pub fn LEVEL_READ() -> (f: InodeFlags)
        ensures
            f.bits() == 1024,
    {
        InodeFlags(1024)
    }
    /// The `LEVEL_WRITE` flag.
    #[allow(non_snake_case)]
    pub fn LEVEL_WRITE() -> (f: InodeFlags)
        ensures
            f.bits() == 2048,
    {
        InodeFlags(2048)
    }
    /// The `LEVEL_EXEC` flag.
    #[allow(non_snake_case)]
    pub fn LEVEL_EXEC() -> (f: InodeFlags)
        ensures
            f.bits() == 4096,
    {
        InodeFlags(4096)
    }

    /// The raw bits.
    pub open spec fn bits(self) -> u64 {
        self.0
    }

    /// Flags with the given raw bits.
    pub fn from_raw(value: u64) -> (f: InodeFlags)
        ensures
            f.bits() == value,
    {
        InodeFlags(value)
    }

    /// The raw bits.
    pub fn into_raw(self) -> (v: u64)
        ensures
            v == self.bits(),
    {
        self.0
    }

    /// Whether the bits are exactly one of the named flags.
    pub fn is_known(&self) -> (r: bool)
        ensures
            r == is_named_flag(self.bits()),
    {
        let v = self.0;
        v == 1 || v == 2 || v == 4 || v == 8 || v == 16 || v == 32 || v == 64 || v == 128 || v
            == 256 || v == 512 || v == 1024 || v == 2048 || v == 4096
    }

    /// The name of the flag the bits are exactly equal to, or `Unknown`.
    pub fn name(&self) -> (s: &'static str)
        ensures
            s@ == flag_name(self.bits()),
    {
        let v = self.0;
        if v == 1 {
            "DIR"
        } else if v == 2 {
            "USER_READ"
        } else if v == 4 {
            "USER_WRITE"
        } else if v == 8 {
            "USER_EXEC"
        } else if v == 16 {
            "GROUP_READ"
        } else if v == 32 {
            "GROUP_WRITE"
        } else if v == 64 {
            "GROUP_EXEC"
        } else if v == 128 {
            "OTHER_READ"
        } else if v == 256 {
            "OTHER_WRITE"
        } else if v == 512 {
            "OTHER_EXEC"
        } else if v == 1024 {
            "LEVEL_READ"
        } else if v == 2048 {
            "LEVEL_WRITE"
        } else if v == 4096 {
            "LEVEL_EXEC"
        } else {
            "Unknown"
        }
    }

    /// The level held in the top 16 bits.
    pub fn level(self) -> (l: u16)
        ensures
            l == spec_level(self.bits()),
    {
        (self.0 >> 48) as u16
    }

    /// Replaces the level in the top 16 bits, keeping the other 48.
    pub fn set_level(&mut self, level: u16)
        ensures
            final(self).bits() == spec_with_level(old(self).bits(), level),
    {
        let v = self.0;
        assert(v & (!0u64 << 16 >> 16) == v & 0x0000_ffff_ffff_ffff) by (bit_vector);
        self.0 &= !0u64 << 16 >> 16;
        self.0 |= (level as u64) << 48;
    }
}

/// Whether `v` is exactly one of the named flags.
pub open spec fn is_named_flag(v: u64) -> bool {
    v == 1 || v == 2 || v == 4 || v == 8 || v == 16 || v == 32 || v == 64 || v == 128 || v == 256
        || v == 512 || v == 1024 || v == 2048 || v == 4096
}

/// The name of the flag that `v` is exactly equal to, or `Unknown`.
pub open spec fn flag_name(v: u64) -> Seq<char> {
    if v == 1 {
        "DIR"@
    } else if v == 2 {
        "USER_READ"@
    } else if v == 4 {
        "USER_WRITE"@
    } else if v == 8 {
        "USER_EXEC"@
    } else if v == 16 {
        "GROUP_READ"@
    } else if v == 32 {
        "GROUP_WRITE"@
    } else if v == 64 {
        "GROUP_EXEC"@
    } else if v == 128 {
        "OTHER_READ"@
    } else if v == 256 {
        "OTHER_WRITE"@
    } else if v == 512 {
        "OTHER_EXEC"@
    } else if v == 1024 {
        "LEVEL_READ"@
    } else if v == 2048 {
        "LEVEL_WRITE"@
    } else if v == 4096 {
        "LEVEL_EXEC"@
    } else {
        "Unknown"@
    }
}

/// The level held in the top 16 bits of `v`.
pub open spec fn spec_level(v: u64) -> u16 {
    (v >> 48) as u16
}

/// `v` with its top 16 bits replaced by `level`.
pub open spec fn spec_with_level(v: u64, level: u16) -> u64 {
    (v & 0x0000_ffff_ffff_ffff) | ((level as u64) << 48)
}

/// Setting the level and reading it back gives that level, and the other 48
/// bits are kept.
pub proof fn lemma_level_round_trip(v: u64, level: u16)
    ensures
        spec_level(spec_with_level(v, level)) == level,
        spec_with_level(v, level) & 0x0000_ffff_ffff_ffff == v & 0x0000_ffff_ffff_ffff,
{
    assert(((((v & 0x0000_ffff_ffff_ffff) | ((level as u64) << 48)) >> 48) as u16) == level)
        by (bit_vector);
    assert((((v & 0x0000_ffff_ffff_ffff) | ((level as u64) << 48)) & 0x0000_ffff_ffff_ffff) == v
        & 0x0000_ffff_ffff_ffff) by (bit_vector);
}

impl core::ops::BitOr for InodeFlags {
    type Output = InodeFlags;

    fn bitor(self, rhs: InodeFlags) -> (r: InodeFlags) {
        InodeFlags(self.0 | rhs.0)
    }
}

impl vstd::std_specs::ops::BitOrSpecImpl for InodeFlags {
    open spec fn obeys_bitor_spec() -> bool {
        true
    }

    open spec fn bitor_req(self, rhs: InodeFlags) -> bool {
        true
    }

    open spec fn bitor_spec(self, rhs: InodeFlags) -> InodeFlags {
        InodeFlags(self.0 | rhs.0)
    }
}

impl core::ops::BitAnd for InodeFlags {
    type Output = InodeFlags;

    fn bitand(self, rhs: InodeFlags) -> (r: InodeFlags) {
        InodeFlags(self.0 & rhs.0)
    }
}

impl vstd::std_specs::ops::BitAndSpecImpl for InodeFlags {
    open spec fn obeys_bitand_spec() -> bool {
        true
    }

    open spec fn bitand_req(self, rhs: InodeFlags) -> bool {
        true
    }

    open spec fn bitand_spec(self, rhs: InodeFlags) -> InodeFlags {
        InodeFlags(self.0 & rhs.0)
    }
}

impl core::ops::Not for InodeFlags {
    type Output = InodeFlags;

    fn not(self) -> (r: InodeFlags) {
        InodeFlags(!self.0)
    }
}

impl vstd::std_specs::ops::NotSpecImpl for InodeFlags {
    open spec fn obeys_not_spec() -> bool {
        true
    }

    open spec fn not_req(self) -> bool {
        true
    }

    open spec fn not_spec(self) -> InodeFlags {
        InodeFlags(!self.0)
    }
}

impl From<u64> for InodeFlags {
    fn from(value: u64) -> (f: InodeFlags) {
        InodeFlags(value)
    }
}

impl vstd::std_specs::convert::FromSpecImpl<u64> for InodeFlags {
    open spec fn obeys_from_spec() -> bool {
        true
    }

    open spec fn from_spec(value: u64) -> InodeFlags {
        InodeFlags(value)
    }
}

impl From<InodeFlags> for u64 {
    fn from(f: InodeFlags) -> (v: u64) {
        f.0
    }
}

impl vstd::std_specs::convert::FromSpecImpl<InodeFlags> for u64 {
    open spec fn obeys_from_spec() -> bool {
        true
    }

    open spec fn from_spec(f: InodeFlags) -> u64 {
        f.0
    }
}

/// Identifies an inode: its number and the id of its meta-block.
#[derive(Debug, Clone, Copy, PartialEq, Eq, PartialOrd, Ord, Hash, Structural)]
pub struct InodeId(pub u32, pub u32);

/// The kind of a file-system object.
#[derive(Debug, Clone, Copy, PartialEq, Eq, Structural)]
pub enum Kind {
    Unknown,
    File,
    Directory,
    Socket,
    Virtual,
    SymLink,
}

impl Kind {
    /// The numeric code of the kind.
    pub fn code(&self) -> (c: u16)
        ensures
            c == match *self {
                Kind::Unknown => 0u16,
                Kind::File => 1,
                Kind::Directory => 2,
                Kind::Socket => 3,
                Kind::Virtual => 4,
                Kind::SymLink => 5,
            },
    {
        match *self {
            Kind::Unknown => 0,
            Kind::File => 1,
            Kind::Directory => 2,
            Kind::Socket => 3,
            Kind::Virtual => 4,
            Kind::SymLink => 5,
        }
    }
}

/// The attributes of a file-system object.
#[derive(Debug, Clone, Copy, PartialEq, Eq)]
pub struct Inode {
    pub id: InodeId,
    pub kind: Kind,
    pub flags: InodeFlags,
    pub size: u64,
    pub uid: u16,
    pub gid: u16,
    pub atime: u64,
    pub mtime: u64,
    pub ctime: u64,
    pub nlink: u32,
    pub private: [u8; 34],
}

/// Whether every attribute of `i` is zero, its kind `Unknown`.
pub open spec fn is_blank_inode(i: Inode) -> bool {
    &&& i.id == InodeId(0, 0)
    &&& i.kind == Kind::Unknown
    &&& i.flags.0 == 0
    &&& i.size == 0
    &&& i.uid == 0
    &&& i.gid == 0
    &&& i.atime == 0
    &&& i.mtime == 0
    &&& i.ctime == 0
    &&& i.nlink == 0
    &&& forall|k: int| 0 <= k < 34 ==> i.private@[k] == 0u8
}

impl Inode {
    /// An inode with every attribute zero and kind `Unknown`.
    pub fn new() -> (i: Inode)
        ensures
            is_blank_inode(i),
    {
        Inode {
            id: InodeId(0, 0),
            kind: Kind::Unknown,
            flags: InodeFlags(0),
            size: 0,
            uid: 0,
            gid: 0,
            atime: 0,
            mtime: 0,
            ctime: 0,
            nlink: 0,
            private: [0u8; 34],
        }
    }
}

impl Default for Inode {
    fn default() -> (i: Inode)
        ensures
            is_blank_inode(i),
    {
        Inode::new()
    }
}

/// The interface a file system implements.
pub trait FileSystem {
    fn lookup(&self, dir: InodeId, name: &str) -> Option<InodeId>;

    fn readdir(&self, dir: InodeId, offset: usize) -> Option<(String, InodeId)>;

    fn read(&self, file: InodeId, offset: usize, buf: &mut [u8]) -> Result<usize, FsError>;

    /// Reads a symbolic link's target; by default the file system has none.
    fn read_link(&self, file: InodeId, offset: usize, buf: &mut [u8]) -> (r: Result<usize, FsError>)
        default_ensures
            r == Err::<usize, FsError>(FsError::Unknown),
    {
        Err(FsError::Unknown)
    }

    fn write(&self, file: InodeId, offset: usize, buf: &[u8]) -> Result<usize, FsError>;

    fn truncate(&self, file: InodeId, new_size: usize) -> Result<(), FsError>;

    fn unlink(&self, dir: InodeId, name: &str) -> Result<(), FsError>;

    fn link(&self, parent: InodeId, name: &str, child: InodeId) -> Result<(), FsError>;

    fn new(&self, mb_id: u32, inode: Inode, kind: Kind) -> Result<InodeId, FsError>;

    fn stat(&self, inode: InodeId) -> Option<Inode>;

    fn set_mb_id(&self, mb_id: u32);

    /// Whether the file system recognises the block device; by default it
    /// recognises none.
    fn probe_blkdev(&self, device: String) -> (r: bool)
        default_ensures
            !r,
    {
        let _ = device;
        false
    }
}

/// Identifies a meta-block.
pub type MetaBlockId = u32;

/// A mounted file system together with its id.
pub struct MetaBlock<F: FileSystem> {
    pub id: MetaBlockId,
    pub fs: F,
}

impl<F: FileSystem> MetaBlock<F> {
    /// A meta-block for `fs` with the given id.
    pub fn new(id: MetaBlockId, fs: F) -> (m: MetaBlock<F>)
        ensures
            m.id == id,
            m.fs == fs,
    {
        MetaBlock { id, fs }
    }
}

} // verus!
