//! Reading files, links and directories.

use vstd::prelude::*;
use crate::api::fs::dent::ReadDir;
use crate::api::fs::ops::{cat3, cat4, err, finishes_err, kind_from, kind_of, text, Reply, ReplyKind, Request, Step};
use crate::api::fs::query::copy_string;
use crate::api::path::{spec_file_name, spec_parent, Path, PathBuf};
use crate::io::ErrorKind;
use crate::api::fs::meta::Metadata;
use crate::raw::vfs::{fs_error_kind, fs_error_name, Inode, InodeId, Kind};
use crate::text::{decoded, lossy_string};

verus! {

/// Where a read stands.
#[derive(Debug, Clone, Copy, PartialEq, Eq, Structural)]
pub enum ReadStage {
    /// Waiting for the resolution of the path.
    ResolvePath,
    /// Waiting for the resolution of the parent (a link is not followed).
    ResolveParent,
    /// Waiting for the file name to be looked up in the parent.
    Lookup,
    /// Waiting for the attributes of what the path names.
    Stat,
    /// Waiting for the bytes read.
    Read,
}

/// The kind of object a read of the contents (`link` false) or of the
/// target (`link` true) asks for.
pub open spec fn read_kind(link: bool) -> Kind {
    if link {
        Kind::SymLink
    } else {
        Kind::File
    }
}

/// The message of a read of an object of another kind.
pub open spec fn wrong_kind_message(link: bool, path: Seq<char>) -> Seq<char> {
    if link {
        "Can't read symlink `"@ + path + "`: Not a symlink"@
    } else {
        "Can't read `"@ + path + "`: Not a file"@
    }
}

/// The first `n` bytes of `b`, filled up with zeros when it is shorter.
pub open spec fn fitted(b: Seq<u8>, n: int) -> Seq<u8> {
    Seq::new(n as nat, |k: int| if k < b.len() { b[k] } else { 0u8 })
}

/// Exactly `len` bytes: the first of `buf`, then zeros.
pub(crate) fn fit(buf: Vec<u8>, len: usize) -> (r: Vec<u8>)
    ensures
        r@ == fitted(buf@, len as int),
{
    let mut out: Vec<u8> = Vec::new();
    let mut i: usize = 0;
    while i < len
        invariant
            i <= len,
            out@.len() == i,
            forall|k: int| 0 <= k < i ==> out@[k] == (if k < buf@.len() { buf@[k] } else { 0u8 }),
        decreases len - i,
    {
        if i < buf.len() {
            out.push(buf[i]);
        } else {
            out.push(0u8);
        }
        i = i + 1;
    }
    assert(out@ =~= fitted(buf@, len as int));
    out
}

/// The whole contents of a file, or the whole target of a link, as bytes:
/// as many bytes as the object's size.
pub struct ReadOp {
    path: PathBuf,
    parent: PathBuf,
    name: String,
    id: InodeId,
    len: usize,
    stage: ReadStage,
    link: bool,
}

impl ReadOp {
    /// The path read.
    pub closed spec fn path(&self) -> Seq<char> {
        self.path@
    }

    /// The parent of the path (when the final name is looked up).
    pub closed spec fn parent(&self) -> Seq<char> {
        self.parent@
    }

    /// The file name of the path (when it is looked up).
    pub closed spec fn name(&self) -> Seq<char> {
        self.name@
    }

    /// What the path names (meaningful once found).
    pub closed spec fn resolved(&self) -> InodeId {
        self.id
    }

    /// The number of bytes read (meaningful once stat'ed).
    pub closed spec fn length(&self) -> usize {
        self.len
    }

    /// Where the read stands.
    pub closed spec fn stage(&self) -> ReadStage {
        self.stage
    }

    /// Whether the target of a link is read.
    pub closed spec fn link(&self) -> bool {
        self.link
    }

    /// The reply the read waits for.
    pub open spec fn spec_awaits(&self) -> ReplyKind {
        match self.stage() {
            ReadStage::ResolvePath | ReadStage::ResolveParent => ReplyKind::Resolved,
            ReadStage::Lookup => ReplyKind::Found,
            ReadStage::Stat => ReplyKind::Stat,
            ReadStage::Read => ReplyKind::Data,
        }
    }

    /// The reply the read waits for.
    pub fn awaits(&self) -> (k: ReplyKind)
        ensures
            k == self.spec_awaits(),
    {
        match self.stage {
            ReadStage::ResolvePath | ReadStage::ResolveParent => ReplyKind::Resolved,
            ReadStage::Lookup => ReplyKind::Found,
            ReadStage::Stat => ReplyKind::Stat,
            ReadStage::Read => ReplyKind::Data,
        }
    }

    /// `self` reads what `other` does.
    pub open spec fn keeps(&self, other: &ReadOp) -> bool {
        &&& self.path() == other.path()
        &&& self.parent() == other.parent()
        &&& self.name() == other.name()
        &&& self.link() == other.link()
    }

    /// Takes the kernel's reply: the path is resolved (or, for a link, its
    /// parent resolved and the final name looked up without following it),
    /// what it names is stat'ed and must be a file (a link for `link`), and
    /// as many bytes as its size are read from its start.
    pub fn resume(self, reply: Reply) -> (s: Step<ReadOp, Vec<u8>>)
        requires
            kind_of(reply) == self.spec_awaits(),
        ensures
            read_resumes(self, reply, s),
    {
        match reply {
            Reply::Resolved(Ok(id)) => {
                if self.stage == ReadStage::ResolvePath {
                    Step::Call(ReadOp { id, stage: ReadStage::Stat, ..self }, Request::Stat { slot: 0, id })
                } else {
                    let name = copy_string(&self.name);
                    Step::Call(ReadOp { stage: ReadStage::Lookup, ..self }, Request::Lookup { slot: 0, dir: id, name })
                }
            },
            Reply::Resolved(Err(e)) => {
                if self.stage == ReadStage::ResolvePath {
                    Step::Finish(err(kind_from(e), cat4("Can't resolve `", self.path.as_str(), "`: ", e.name())))
                } else {
                    Step::Finish(
                        err(kind_from(e), cat4("Can't resolve parent `", self.parent.as_str(), "`: ", e.name())),
                    )
                }
            },
            Reply::Found(Some(id)) => Step::Call(ReadOp { id, stage: ReadStage::Stat, ..self }, Request::Stat { slot: 0, id }),
            Reply::Found(None) => Step::Finish(err(ErrorKind::NotFound, cat3("`", self.path.as_str(), "` not found"))),
            Reply::Stat(Some(inode)) => {
                let wanted = if self.link {
                    Kind::SymLink
                } else {
                    Kind::File
                };
                if inode.kind != wanted {
                    let message = if self.link {
                        cat3("Can't read symlink `", self.path.as_str(), "`: Not a symlink")
                    } else {
                        cat3("Can't read `", self.path.as_str(), "`: Not a file")
                    };
                    Step::Finish(err(ErrorKind::IsADirectory, message))
                } else {
                    let id = self.id;
                    let len = inode.size as usize;
                    let q = if self.link {
                        Request::ReadLink { slot: 0, id, len }
                    } else {
                        Request::Read { slot: 0, id, len }
                    };
                    Step::Call(ReadOp { len, stage: ReadStage::Read, ..self }, q)
                }
            },
            Reply::Stat(None) => Step::Finish(
                err(ErrorKind::Other, cat3("Can't stat `", self.path.as_str(), "`")),
            ),
            Reply::Data(Ok(buf)) => Step::Finish(Ok(fit(buf, self.len))),
            Reply::Data(Err(e)) => Step::Finish(
                err(kind_from(e), cat4("Failed to read `", self.path.as_str(), "`: ", e.name())),
            ),
            _ => {
                assert(false);
                Step::Finish(Ok(Vec::new()))
            },
        }
    }
}

/// What a read does with the kernel's reply `reply`, giving `s`: see
/// [`ReadOp::resume`].
pub open spec fn read_resumes(op: ReadOp, reply: Reply, s: Step<ReadOp, Vec<u8>>) -> bool {
    &&& match (op.stage(), reply) {
        (ReadStage::ResolvePath, Reply::Resolved(Ok(id))) => s matches Step::Call(
            m,
            Request::Stat { slot, id: i },
        ) && slot == 0 && i == id && m.stage() == ReadStage::Stat && m.resolved() == id
            && m.keeps(&op),
        (ReadStage::ResolvePath, Reply::Resolved(Err(e))) => finishes_err(
            s,
            fs_error_kind(e),
            "Can't resolve `"@ + op.path() + "`: "@ + fs_error_name(e),
        ),
        (ReadStage::ResolveParent, Reply::Resolved(Ok(id))) => s matches Step::Call(
            m,
            Request::Lookup { slot, dir, name },
        ) && slot == 0 && dir == id && name@ == op.name() && m.stage() == ReadStage::Lookup
            && m.keeps(&op),
        (ReadStage::ResolveParent, Reply::Resolved(Err(e))) => finishes_err(
            s,
            fs_error_kind(e),
            "Can't resolve parent `"@ + op.parent() + "`: "@ + fs_error_name(e),
        ),
        (ReadStage::Lookup, Reply::Found(Some(id))) => s matches Step::Call(
            m,
            Request::Stat { slot, id: i },
        ) && slot == 0 && i == id && m.stage() == ReadStage::Stat && m.resolved() == id
            && m.keeps(&op),
        (ReadStage::Lookup, Reply::Found(None)) => finishes_err(
            s,
            ErrorKind::NotFound,
            "`"@ + op.path() + "` not found"@,
        ),
        (ReadStage::Stat, Reply::Stat(Some(inode))) => if inode.kind == read_kind(op.link()) {
            s matches Step::Call(m, q) && m.stage() == ReadStage::Read && m.keeps(&op)
                && m.length() == inode.size as usize && if op.link() {
                q matches Request::ReadLink { slot, id, len } && slot == 0 && id
                    == op.resolved() && len == inode.size as usize
            } else {
                q matches Request::Read { slot, id, len } && slot == 0 && id
                    == op.resolved() && len == inode.size as usize
            }
        } else {
            finishes_err(s, ErrorKind::IsADirectory, wrong_kind_message(op.link(), op.path()))
        },
        (ReadStage::Stat, Reply::Stat(None)) => finishes_err(
            s,
            ErrorKind::Other,
            "Can't stat `"@ + op.path() + "`"@,
        ),
        (ReadStage::Read, Reply::Data(Ok(buf))) => s matches Step::Finish(Ok(b)) && b@ == fitted(buf@, op.length() as int),
        (ReadStage::Read, Reply::Data(Err(e))) => finishes_err(
            s,
            fs_error_kind(e),
            "Failed to read `"@ + op.path() + "`: "@ + fs_error_name(e),
        ),
        _ => false,
    }
    &&& (s matches Step::Call(_, Request::Read { .. }) || s matches Step::Call(_, Request::ReadLink { .. }))
        ==> (reply matches Reply::Stat(Some(i)) && i.kind == read_kind(op.link()))
}

/// A read and the metadata taken from the same attributes agree: once the
/// read has stat'ed the file as `inode`, the bytes it gives number exactly
/// the length that the metadata of `inode` reports.
pub proof fn lemma_read_len_is_metadata_len(
    op: ReadOp,
    inode: Inode,
    m: ReadOp,
    q: Request,
    buf: Vec<u8>,
    v: Vec<u8>,
    md: Metadata,
)
    requires
        op.stage() == ReadStage::Stat,
        !op.link(),
        inode.kind == Kind::File,
        inode.size <= usize::MAX,
        read_resumes(op, Reply::Stat(Some(inode)), Step::Call(m, q)),
        read_resumes(m, Reply::Data(Ok(buf)), Step::Finish(Ok(v))),
        md.inode() == inode,
    ensures
        v@.len() == md.inode().size,
{
}

/// A read of the contents of `path`: asks for its resolution.
fn start_read(path: Path<'_>) -> (s: Step<ReadOp, Vec<u8>>)
    ensures
        s matches Step::Call(m, Request::Resolve { path: p, slot }) && p@ == path@ && slot == 0
            && m.stage() == ReadStage::ResolvePath && m.path() == path@ && !m.link(),
{
    let op = ReadOp {
        path: PathBuf::from_path(path),
        parent: PathBuf::new(),
        name: String::new(),
        id: InodeId(0, 0),
        len: 0,
        stage: ReadStage::ResolvePath,
        link: false,
    };
    Step::Call(op, Request::Resolve { path: PathBuf::from_path(path).into_string(), slot: 0 })
}

/// A read of the target of the link `path`: asks for the resolution of its
/// parent, or of the path itself when it has no parent or no file name.
fn start_read_link(path: Path<'_>) -> (s: Step<ReadOp, Vec<u8>>)
    ensures
        match (spec_parent(path@), spec_file_name(path@)) {
            (Some(p), Some(n)) => s matches Step::Call(m, Request::Resolve { path: q, slot }) && q@
                == p && slot == 0 && m.stage() == ReadStage::ResolveParent && m.path() == path@
                && m.parent() == p && m.name() == n && m.link(),
            _ => s matches Step::Call(m, Request::Resolve { path: q, slot }) && q@ == path@ && slot
                == 0 && m.stage() == ReadStage::ResolvePath && m.path() == path@ && m.link(),
        },
{
    match (path.parent(), path.file_name()) {
        (Some(p), Some(n)) => {
            let op = ReadOp {
                path: PathBuf::from_path(path),
                parent: PathBuf::from_path(p),
                name: text(n),
                id: InodeId(0, 0),
                len: 0,
                stage: ReadStage::ResolveParent,
                link: true,
            };
            Step::Call(op, Request::Resolve { path: PathBuf::from_path(p).into_string(), slot: 0 })
        },
        _ => {
            let op = ReadOp {
                path: PathBuf::from_path(path),
                parent: PathBuf::new(),
                name: String::new(),
                id: InodeId(0, 0),
                len: 0,
                stage: ReadStage::ResolvePath,
                link: true,
            };
            Step::Call(op, Request::Resolve { path: PathBuf::from_path(path).into_string(), slot: 0 })
        },
    }
}

/// The whole contents of the file `path` names: asks for its resolution.
pub fn read(path: Path<'_>) -> (s: Step<ReadOp, Vec<u8>>)
    ensures
        s matches Step::Call(m, Request::Resolve { path: p, slot }) && p@ == path@ && slot == 0
            && m.stage() == ReadStage::ResolvePath && m.path() == path@ && !m.link(),
{
    start_read(path)
}

/// The whole contents of a file as text, invalid UTF-8 replaced.
pub struct ReadToStringOp {
    read: ReadOp,
}

impl ReadToStringOp {
    /// The read of the bytes underneath.
    pub closed spec fn bytes(&self) -> ReadOp {
        self.read
    }

    /// The reply the read waits for.
    pub open spec fn spec_awaits(&self) -> ReplyKind {
        self.bytes().spec_awaits()
    }

    /// The reply the read waits for.
    pub fn awaits(&self) -> (k: ReplyKind)
        ensures
            k == self.spec_awaits(),
    {
        self.read.awaits()
    }

    /// Takes the kernel's reply as `read` does, and decodes the bytes read:
    /// each step is the step of the read underneath on the same reply, the
    /// same call or failure, or the bytes it gives decoded.
    pub fn resume(self, reply: Reply) -> (s: Step<ReadToStringOp, String>)
        requires
            kind_of(reply) == self.spec_awaits(),
        ensures
            exists|r: Step<ReadOp, Vec<u8>>| read_resumes(self.bytes(), reply, r) && decodes_as(r, s),
    {
        let r = self.read.resume(reply);
        let ghost g = r;
        let s = match r {
            Step::Call(m, q) => Step::Call(ReadToStringOp { read: m }, q),
            Step::Finish(Ok(buf)) => Step::Finish(Ok(lossy_string(buf.as_slice()))),
            Step::Finish(Err(e)) => Step::Finish(Err(e)),
        };
        assert(read_resumes(self.bytes(), reply, g) && decodes_as(g, s));
        s
    }
}

/// `s` is the step `r` of a read with its bytes decoded: the same call (on
/// the read it continues with), the same failure, or the text of the bytes.
pub open spec fn decodes_as(r: Step<ReadOp, Vec<u8>>, s: Step<ReadToStringOp, String>) -> bool {
    match (r, s) {
        (Step::Call(m, q), Step::Call(n, q2)) => n.bytes() == m && q2 == q,
        (Step::Finish(Ok(b)), Step::Finish(Ok(t))) => t@ == decoded(b@),
        (Step::Finish(Err(e)), Step::Finish(Err(e2))) => e2 == e,
        _ => false,
    }
}

/// The whole contents of the file `path` names as text: asks for its
/// resolution.
pub fn read_to_string(path: Path<'_>) -> (s: Step<ReadToStringOp, String>)
    ensures
        s matches Step::Call(m, Request::Resolve { path: p, slot }) && p@ == path@ && slot == 0
            && m.bytes().stage() == ReadStage::ResolvePath && m.bytes().path() == path@
            && !m.bytes().link(),
{
    match start_read(path) {
        Step::Call(m, q) => Step::Call(ReadToStringOp { read: m }, q),
        Step::Finish(r) => {
            assert(false);
            Step::Finish(Ok(String::new()))
        },
    }
}

/// The target of a symbolic link, as a path.
pub struct ReadLinkOp {
    read: ReadOp,
}

impl ReadLinkOp {
    /// The read of the bytes underneath.
    pub closed spec fn bytes(&self) -> ReadOp {
        self.read
    }

    /// The reply the read waits for.
    pub open spec fn spec_awaits(&self) -> ReplyKind {
        self.bytes().spec_awaits()
    }

    /// The reply the read waits for.
    pub fn awaits(&self) -> (k: ReplyKind)
        ensures
            k == self.spec_awaits(),
    {
        self.read.awaits()
    }

    /// Takes the kernel's reply as the read of the target's bytes does, and
    /// decodes them into a path.
    pub fn resume(self, reply: Reply) -> (s: Step<ReadLinkOp, PathBuf>)
        requires
            kind_of(reply) == self.spec_awaits(),
        ensures
            match (self.bytes().stage(), reply) {
                (ReadStage::ResolvePath, Reply::Resolved(Ok(id))) => s matches Step::Call(
                    m,
                    Request::Stat { slot, id: i },
                ) && slot == 0 && i == id && m.bytes().stage() == ReadStage::Stat && m.bytes().resolved() == id
                    && m.bytes().keeps(&self.bytes()),
                (ReadStage::ResolvePath, Reply::Resolved(Err(e))) => finishes_err(
                    s,
                    fs_error_kind(e),
                    "Can't resolve `"@ + self.bytes().path() + "`: "@ + fs_error_name(e),
                ),
                (ReadStage::ResolveParent, Reply::Resolved(Ok(id))) => s matches Step::Call(
                    m,
                    Request::Lookup { slot, dir, name },
                ) && slot == 0 && dir == id && name@ == self.bytes().name() && m.bytes().stage() == ReadStage::Lookup
                    && m.bytes().keeps(&self.bytes()),
                (ReadStage::ResolveParent, Reply::Resolved(Err(e))) => finishes_err(
                    s,
                    fs_error_kind(e),
                    "Can't resolve parent `"@ + self.bytes().parent() + "`: "@ + fs_error_name(e),
                ),
                (ReadStage::Lookup, Reply::Found(Some(id))) => s matches Step::Call(
                    m,
                    Request::Stat { slot, id: i },
                ) && slot == 0 && i == id && m.bytes().stage() == ReadStage::Stat && m.bytes().resolved() == id
                    && m.bytes().keeps(&self.bytes()),
                (ReadStage::Lookup, Reply::Found(None)) => finishes_err(
                    s,
                    ErrorKind::NotFound,
                    "`"@ + self.bytes().path() + "` not found"@,
                ),
                (ReadStage::Stat, Reply::Stat(Some(inode))) => if inode.kind == read_kind(self.bytes().link()) {
                    s matches Step::Call(m, q) && m.bytes().stage() == ReadStage::Read && m.bytes().keeps(&self.bytes())
                        && m.bytes().length() == inode.size as usize && if self.bytes().link() {
                        q matches Request::ReadLink { slot, id, len } && slot == 0 && id
                            == self.bytes().resolved() && len == inode.size as usize
                    } else {
                        q matches Request::Read { slot, id, len } && slot == 0 && id
                            == self.bytes().resolved() && len == inode.size as usize
                    }
                } else {
                    finishes_err(s, ErrorKind::IsADirectory, wrong_kind_message(self.bytes().link(), self.bytes().path()))
                },
                (ReadStage::Stat, Reply::Stat(None)) => finishes_err(
                    s,
                    ErrorKind::Other,
                    "Can't stat `"@ + self.bytes().path() + "`"@,
                ),
                (ReadStage::Read, Reply::Data(Ok(buf))) => s matches Step::Finish(Ok(t)) && t@ == decoded(fitted(buf@, self.bytes().length() as int)),
                (ReadStage::Read, Reply::Data(Err(e))) => finishes_err(
                    s,
                    fs_error_kind(e),
                    "Failed to read `"@ + self.bytes().path() + "`: "@ + fs_error_name(e),
                ),
                _ => false,
            },
            (s matches Step::Call(_, Request::Read { .. }) || s matches Step::Call(_, Request::ReadLink { .. }))
                ==> (reply matches Reply::Stat(Some(i)) && i.kind == read_kind(self.bytes().link())),
    {
        match self.read.resume(reply) {
            Step::Call(m, q) => Step::Call(ReadLinkOp { read: m }, q),
            Step::Finish(Ok(buf)) => Step::Finish(Ok(PathBuf::from_string(lossy_string(buf.as_slice())))),
            Step::Finish(Err(e)) => Step::Finish(Err(e)),
        }
    }
}

/// The target of the symbolic link `path` names, the link itself not
/// followed: asks for the resolution of its parent (of the path itself when
/// it has no parent or no file name).
pub fn read_link(path: Path<'_>) -> (s: Step<ReadLinkOp, PathBuf>)
    ensures
        match (spec_parent(path@), spec_file_name(path@)) {
            (Some(p), Some(n)) => s matches Step::Call(m, Request::Resolve { path: q, slot }) && q@
                == p && slot == 0 && m.bytes().stage() == ReadStage::ResolveParent
                && m.bytes().path() == path@ && m.bytes().parent() == p && m.bytes().name() == n
                && m.bytes().link(),
            _ => s matches Step::Call(m, Request::Resolve { path: q, slot }) && q@ == path@ && slot
                == 0 && m.bytes().stage() == ReadStage::ResolvePath && m.bytes().path() == path@
                && m.bytes().link(),
        },
{
    match start_read_link(path) {
        Step::Call(m, q) => Step::Call(ReadLinkOp { read: m }, q),
        Step::Finish(r) => {
            assert(false);
            Step::Finish(Ok(PathBuf::new()))
        },
    }
}

// ---------------------------------------------------------------------------
// read_dir
// ---------------------------------------------------------------------------

/// Where the opening of a directory listing stands.
#[derive(Debug, Clone, Copy, PartialEq, Eq, Structural)]
pub enum ReadDirStage {
    /// Waiting for the resolution of the path.
    Resolve,
    /// Waiting for the attributes of what it names.
    Stat,
}

/// The opening of a directory listing.
pub struct ReadDirOp {
    path: PathBuf,
    id: InodeId,
    stage: ReadDirStage,
}

impl ReadDirOp {
    /// The path of the directory.
    pub closed spec fn path(&self) -> Seq<char> {
        self.path@
    }

    /// What the path resolved to (meaningful once resolved).
    pub closed spec fn resolved(&self) -> InodeId {
        self.id
    }

    /// Where the opening stands.
    pub closed spec fn stage(&self) -> ReadDirStage {
        self.stage
    }

    /// The reply the opening waits for.
    pub open spec fn spec_awaits(&self) -> ReplyKind {
        match self.stage() {
            ReadDirStage::Resolve => ReplyKind::Resolved,
            ReadDirStage::Stat => ReplyKind::Stat,
        }
    }

    /// The reply the opening waits for.
    pub fn awaits(&self) -> (k: ReplyKind)
        ensures
            k == self.spec_awaits(),
    {
        match self.stage {
            ReadDirStage::Resolve => ReplyKind::Resolved,
            ReadDirStage::Stat => ReplyKind::Stat,
        }
    }

    /// Takes the kernel's reply: the path is resolved and what it names
    /// stat'ed; a directory gives a listing of it, which starts at its
    /// first entry and joins names to the path.
    pub fn resume(self, reply: Reply) -> (s: Step<ReadDirOp, ReadDir>)
        requires
            kind_of(reply) == self.spec_awaits(),
        ensures
            match reply {
                Reply::Resolved(Ok(id)) => s matches Step::Call(m, Request::Stat { slot, id: i })
                    && slot == 0 && i == id && m.stage() == ReadDirStage::Stat && m.resolved() == id
                    && m.path() == self.path(),
                Reply::Resolved(Err(e)) => finishes_err(
                    s,
                    fs_error_kind(e),
                    "Can't resolve `"@ + self.path() + "`: "@ + fs_error_name(e),
                ),
                Reply::Stat(Some(inode)) => if inode.kind == Kind::Directory {
                    s matches Step::Finish(Ok(rd)) && rd.dir() == self.resolved() && rd.offset()
                        == 0 && rd.base() == self.path()
                } else {
                    finishes_err(
                        s,
                        ErrorKind::NotADirectory,
                        "Can't read dir `"@ + self.path() + "`: Not a directory"@,
                    )
                },
                Reply::Stat(None) => finishes_err(s, ErrorKind::Other, "Can't stat `"@ + self.path() + "`"@),
                _ => false,
            },
    {
        match reply {
            Reply::Resolved(Ok(id)) => Step::Call(
                ReadDirOp { id, stage: ReadDirStage::Stat, ..self },
                Request::Stat { slot: 0, id },
            ),
            Reply::Resolved(Err(e)) => Step::Finish(
                err(kind_from(e), cat4("Can't resolve `", self.path.as_str(), "`: ", e.name())),
            ),
            Reply::Stat(Some(inode)) => {
                if inode.kind != Kind::Directory {
                    Step::Finish(
                        err(
                            ErrorKind::NotADirectory,
                            cat3("Can't read dir `", self.path.as_str(), "`: Not a directory"),
                        ),
                    )
                } else {
                    Step::Finish(Ok(ReadDir::open(self.id, 0, self.path)))
                }
            },
            Reply::Stat(None) => Step::Finish(
                err(ErrorKind::Other, cat3("Can't stat `", self.path.as_str(), "`")),
            ),
            _ => {
                assert(false);
                Step::Finish(err(ErrorKind::Other, String::new()))
            },
        }
    }
}

/// A listing of the directory `path` names: asks for its resolution.
pub fn read_dir(path: Path<'_>) -> (s: Step<ReadDirOp, ReadDir>)
    ensures
        s matches Step::Call(m, Request::Resolve { path: p, slot }) && p@ == path@ && slot == 0
            && m.stage() == ReadDirStage::Resolve && m.path() == path@,
{
    let op = ReadDirOp { path: PathBuf::from_path(path), id: InodeId(0, 0), stage: ReadDirStage::Resolve };
    Step::Call(op, Request::Resolve { path: PathBuf::from_path(path).into_string(), slot: 0 })
}

} // verus!
