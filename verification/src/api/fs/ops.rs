//! The protocol between a file-system operation and the kernel.

use vstd::prelude::*;
use crate::io::{Error, ErrorKind};
use crate::raw::vfs::{FsError, Inode, InodeId, Kind};

verus! {

/// A kernel call that an operation asks for. `slot` names the meta-block
/// that the last `Resolve` into that slot returned.
pub enum Request {
    /// Resolve `path`; the meta-block it lies on goes into `slot`.
    Resolve { path: String, slot: usize },
    /// Read the attributes of `id`.
    Stat { slot: usize, id: InodeId },
    /// Look `name` up in the directory `dir`.
    Lookup { slot: usize, dir: InodeId, name: String },
    /// Create an object of `kind` from `inode`.
    New { slot: usize, inode: Inode, kind: Kind },
    /// Read `len` bytes of the file `id` from its start.
    Read { slot: usize, id: InodeId, len: usize },
    /// Read `len` bytes of the link `id` from its start.
    ReadLink { slot: usize, id: InodeId, len: usize },
    /// Write `data` to the file `id` from its start.
    Write { slot: usize, id: InodeId, data: Vec<u8> },
    /// Cut the file `id` to `len` bytes.
    Truncate { slot: usize, id: InodeId, len: usize },
    /// List the entries of the directory `dir`.
    ListDir { slot: usize, dir: InodeId },
    /// Remove the entry `name` of the directory `dir`.
    Unlink { slot: usize, dir: InodeId, name: String },
    /// Add the entry `name` for `child` to the directory `parent`.
    Link { slot: usize, parent: InodeId, name: String, child: InodeId },
}

/// The kernel's answer to a request.
pub enum Reply {
    /// Answers `Resolve`.
    Resolved(Result<InodeId, FsError>),
    /// Answers `Stat`.
    Stat(Option<Inode>),
    /// Answers `Lookup`.
    Found(Option<InodeId>),
    /// Answers `New` with the new object.
    Created(Result<InodeId, FsError>),
    /// Answers `Write`, `Truncate`, `Unlink` and `Link`.
    Done(Result<(), FsError>),
    /// Answers `Read` and `ReadLink` with the buffer read into.
    Data(Result<Vec<u8>, FsError>),
    /// Answers `ListDir` with the entries, in the order the kernel lists
    /// them.
    Listing(Vec<(String, InodeId)>),
}

/// The shape of a reply.
#[derive(Debug, Clone, Copy, PartialEq, Eq, Structural)]
pub enum ReplyKind {
    Resolved,
    Stat,
    Found,
    Created,
    Done,
    Data,
    Listing,
}

/// The shape of `r`.
pub open spec fn kind_of(r: Reply) -> ReplyKind {
    match r {
        Reply::Resolved(_) => ReplyKind::Resolved,
        Reply::Stat(_) => ReplyKind::Stat,
        Reply::Found(_) => ReplyKind::Found,
        Reply::Created(_) => ReplyKind::Created,
        Reply::Done(_) => ReplyKind::Done,
        Reply::Data(_) => ReplyKind::Data,
        Reply::Listing(_) => ReplyKind::Listing,
    }
}

/// The shape of the reply that answers `q`.
pub open spec fn answer_kind(q: Request) -> ReplyKind {
    match q {
        Request::Resolve { .. } => ReplyKind::Resolved,
        Request::Stat { .. } => ReplyKind::Stat,
        Request::Lookup { .. } => ReplyKind::Found,
        Request::New { .. } => ReplyKind::Created,
        Request::Read { .. } => ReplyKind::Data,
        Request::ReadLink { .. } => ReplyKind::Data,
        Request::Write { .. } => ReplyKind::Done,
        Request::Truncate { .. } => ReplyKind::Done,
        Request::ListDir { .. } => ReplyKind::Listing,
        Request::Unlink { .. } => ReplyKind::Done,
        Request::Link { .. } => ReplyKind::Done,
    }
}

impl Reply {
    /// The shape of the reply.
    pub fn kind(&self) -> (k: ReplyKind)
        ensures
            k == kind_of(*self),
    {
        match self {
            Reply::Resolved(_) => ReplyKind::Resolved,
            Reply::Stat(_) => ReplyKind::Stat,
            Reply::Found(_) => ReplyKind::Found,
            Reply::Created(_) => ReplyKind::Created,
            Reply::Done(_) => ReplyKind::Done,
            Reply::Data(_) => ReplyKind::Data,
            Reply::Listing(_) => ReplyKind::Listing,
        }
    }
}

impl Request {
    /// The shape of the reply that answers the request.
    pub fn answer_kind(&self) -> (k: ReplyKind)
        ensures
            k == answer_kind(*self),
    {
        match self {
            Request::Resolve { .. } => ReplyKind::Resolved,
            Request::Stat { .. } => ReplyKind::Stat,
            Request::Lookup { .. } => ReplyKind::Found,
            Request::New { .. } => ReplyKind::Created,
            Request::Read { .. } => ReplyKind::Data,
            Request::ReadLink { .. } => ReplyKind::Data,
            Request::Write { .. } => ReplyKind::Done,
            Request::Truncate { .. } => ReplyKind::Done,
            Request::ListDir { .. } => ReplyKind::Listing,
            Request::Unlink { .. } => ReplyKind::Done,
            Request::Link { .. } => ReplyKind::Done,
        }
    }
}

/// What an operation does next: ask for a kernel call and wait in the given
/// state, or finish with its result.
pub enum Step<M, T> {
    Call(M, Request),
    Finish(Result<T, Error>),
}

/// `r` is an error of kind `k` with message `m`.
pub open spec fn is_err_with<T>(r: Result<T, Error>, k: ErrorKind, m: Seq<char>) -> bool {
    match r {
        Err(e) => e.spec_kind() == k && e.spec_message() == m,
        Ok(_) => false,
    }
}

/// `s` finishes with an error of kind `k` and message `m`.
pub open spec fn finishes_err<M, T>(s: Step<M, T>, k: ErrorKind, m: Seq<char>) -> bool {
    match s {
        Step::Finish(r) => is_err_with(r, k, m),
        Step::Call(..) => false,
    }
}

/// The text `a` as an owned string.
pub fn text(a: &str) -> (s: String)
    ensures
        s@ == a@,
{
    <String as StringExecFns>::from_str(a)
}

/// The text `a` followed by `b`.
pub fn cat2(a: &str, b: &str) -> (s: String)
    ensures
        s@ == a@ + b@,
{
    let mut s = String::new();
    s.append(a);
    s.append(b);
    s
}

/// The texts `a`, `b` and `c` in a row.
pub fn cat3(a: &str, b: &str, c: &str) -> (s: String)
    ensures
        s@ == a@ + b@ + c@,
{
    let mut s = String::new();
    s.append(a);
    s.append(b);
    s.append(c);
    s
}

/// The texts `a`, `b`, `c` and `d` in a row.
pub fn cat4(a: &str, b: &str, c: &str, d: &str) -> (s: String)
    ensures
        s@ == a@ + b@ + c@ + d@,
{
    let mut s = String::new();
    s.append(a);
    s.append(b);
    s.append(c);
    s.append(d);
    s
}

/// An error of kind `kind` with message `message`.
pub fn err<T>(kind: ErrorKind, message: String) -> (r: Result<T, Error>)
    ensures
        is_err_with(r, kind, message@),
{
    Err(Error::new(kind, message))
}

/// The error kind of a file-system error.
pub fn kind_from(e: FsError) -> (k: ErrorKind)
    ensures
        k == crate::raw::vfs::fs_error_kind(e),
{
    ErrorKind::from(e)
}

} // verus!
