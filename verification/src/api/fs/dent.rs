//! Directory entries and directory listings.

use vstd::prelude::*;
use crate::api::fs::ftype::FileType;
use crate::api::fs::meta::Metadata;
use crate::api::path::{spec_file_name, spec_push, Path, PathBuf};
use crate::io::Error;
use crate::raw::vfs::{Inode, InodeId};

verus! {

/// An entry of a directory: its attributes and its full path.
pub struct DirEntry(pub(crate) Inode, pub(crate) PathBuf);

impl DirEntry {
    /// The attributes of the entry.
    pub closed spec fn inode(&self) -> Inode {
        self.0
    }

    /// The full path of the entry.
    pub closed spec fn spec_path(&self) -> Seq<char> {
        self.1@
    }

    /// The full path of the entry.
    pub fn path(&self) -> (p: Path<'_>)
        ensures
            p@ == self.spec_path(),
    {
        self.1.as_path()
    }

    /// The metadata of the entry.
    pub fn metadata(&self) -> (r: Result<Metadata, Error>)
        ensures
            r matches Ok(m) && m.inode() == self.inode(),
    {
        Ok(Metadata::of(self.0))
    }

    /// The file type of the entry.
    pub fn file_type(&self) -> (r: Result<FileType, Error>)
        ensures
            r matches Ok(t) && t.kind() == self.inode().kind,
    {
        Ok(FileType::of(self.0.kind))
    }

    /// The file name of the entry (empty when its path has none).
    pub fn file_name(&self) -> (s: String)
        ensures
            s@ == match spec_file_name(self.spec_path()) {
                Some(n) => n,
                None => Seq::empty(),
            },
    {
        match self.1.as_path().file_name() {
            Some(n) => <String as StringExecFns>::from_str(n),
            None => String::new(),
        }
    }
}

/// A listing of a directory, read one entry at a time: the directory, the
/// offset of the next entry, and the path the entries' names are joined to.
pub struct ReadDir {
    pub(crate) dir: InodeId,
    pub(crate) offset: usize,
    pub(crate) base: PathBuf,
}

impl ReadDir {
    /// The directory listed.
    pub closed spec fn dir(&self) -> InodeId {
        self.dir
    }

    /// The offset of the next entry.
    pub closed spec fn offset(&self) -> usize {
        self.offset
    }

    /// The path the entries' names are joined to.
    pub closed spec fn base(&self) -> Seq<char> {
        self.base@
    }

    /// A listing of `dir` from `offset`, joining names to `base`.
    pub(crate) fn open(dir: InodeId, offset: usize, base: PathBuf) -> (r: ReadDir)
        ensures
            r.dir() == dir,
            r.offset() == offset,
            r.base() == base@,
    {
        ReadDir { dir, offset, base }
    }

    /// The directory and offset to read the next entry at.
    pub fn position(&self) -> (r: (InodeId, usize))
        ensures
            r == (self.dir(), self.offset()),
    {
        (self.dir, self.offset)
    }

    /// Takes the entry read at the current offset: when there is one, the
    /// offset moves past it and the entry is returned to be stat'ed.
    pub fn advance(&mut self, found: Option<(String, InodeId)>) -> (r: Option<(String, InodeId)>)
        requires
            found is Some ==> old(self).offset() < usize::MAX,
        ensures
            r == found,
            final(self).dir() == old(self).dir(),
            final(self).base() == old(self).base(),
            final(self).offset() == if found is Some {
                (old(self).offset() + 1) as usize
            } else {
                old(self).offset()
            },
    {
        if found.is_some() {
            self.offset = self.offset + 1;
        }
        found
    }

    /// The entry named `name` with the attributes read for it; none when
    /// they could not be read.
    pub fn entry(&self, name: &str, stat: Option<Inode>) -> (r: Option<DirEntry>)
        ensures
            match stat {
                Some(inode) => r matches Some(e) && e.inode() == inode && e.spec_path() == spec_push(
                    self.base(),
                    name@,
                ),
                None => r is None,
            },
    {
        match stat {
            Some(inode) => {
                let mut path = PathBuf::from_str(self.base.as_str());
                path.push(Path::new(name));
                Some(DirEntry(inode, path))
            },
            None => None,
        }
    }
}

} // verus!
