//! Writing files and creating directories.

use vstd::prelude::*;
use crate::api::fs::ops::{
    cat2, cat3, cat4, err, text, finishes_err, kind_from, kind_of, Reply, ReplyKind, Request, Step,
};
use crate::api::path::{spec_file_name, spec_parent, Path, PathBuf};
use crate::api::fs::query::copy_string;
use crate::io::{Error, ErrorKind};
use crate::raw::vfs::{fs_error_kind, fs_error_name, InodeId, Kind};

verus! {

/// Where a write stands.
#[derive(Debug, Clone, Copy, PartialEq, Eq, Structural)]
pub enum WriteStage {
    /// Waiting for the resolution of the path.
    Resolve,
    /// Waiting for the attributes of what it names.
    Stat,
    /// Waiting for the outcome of the write.
    Write,
    /// Waiting for the outcome of cutting the file to the bytes written.
    Truncate,
}

/// A write of the whole contents of a file: the bytes are written from the
/// start and the file is then cut to their length.
pub struct WriteOp {
    path: PathBuf,
    id: InodeId,
    data: Vec<u8>,
    stage: WriteStage,
}

impl WriteOp {
    /// The path written.
    pub closed spec fn path(&self) -> Seq<char> {
        self.path@
    }

    /// What the path resolved to (meaningful once resolved).
    pub closed spec fn resolved(&self) -> InodeId {
        self.id
    }

    /// The bytes to write.
    pub closed spec fn data(&self) -> Seq<u8> {
        self.data@
    }

    /// Where the write stands.
    pub closed spec fn stage(&self) -> WriteStage {
        self.stage
    }

    /// The reply the write waits for.
    pub open spec fn spec_awaits(&self) -> ReplyKind {
        match self.stage() {
            WriteStage::Resolve => ReplyKind::Resolved,
            WriteStage::Stat => ReplyKind::Stat,
            WriteStage::Write | WriteStage::Truncate => ReplyKind::Done,
        }
    }

    /// The reply the write waits for.
    pub fn awaits(&self) -> (k: ReplyKind)
        ensures
            k == self.spec_awaits(),
    {
        match self.stage {
            WriteStage::Resolve => ReplyKind::Resolved,
            WriteStage::Stat => ReplyKind::Stat,
            WriteStage::Write | WriteStage::Truncate => ReplyKind::Done,
        }
    }

    /// `self` writes what `other` does, where it does.
    pub open spec fn keeps(&self, other: &WriteOp) -> bool {
        self.path() == other.path() && self.data() == other.data()
    }

    /// Takes the kernel's reply: the path is resolved, what it names is
    /// stat'ed and must be a file, and the bytes are written from its start.
    /// Nothing is written to anything but a file.
    pub fn resume(self, reply: Reply) -> (s: Step<WriteOp, ()>)
        requires
            kind_of(reply) == self.spec_awaits(),
        ensures
            match reply {
                Reply::Resolved(Ok(id)) => s matches Step::Call(m, Request::Stat { slot, id: i })
                    && slot == 0 && i == id && m.stage() == WriteStage::Stat && m.resolved() == id
                    && m.keeps(&self),
                Reply::Resolved(Err(e)) => finishes_err(
                    s,
                    fs_error_kind(e),
                    "Can't resolve `"@ + self.path() + "`: "@ + fs_error_name(e),
                ),
                Reply::Stat(Some(inode)) => if inode.kind == Kind::File {
                    s matches Step::Call(m, Request::Write { slot, id, data }) && slot == 0 && id
                        == self.resolved() && data@ == self.data() && m.stage() == WriteStage::Write
                        && m.keeps(&self)
                } else {
                    finishes_err(s, ErrorKind::IsADirectory, "Can't write `"@ + self.path() + "`: Not a file"@)
                },
                Reply::Stat(None) => finishes_err(s, ErrorKind::Other, "Can't stat `"@ + self.path() + "`"@),
                Reply::Done(Ok(())) => if self.stage() == WriteStage::Write {
                    s matches Step::Call(m, Request::Truncate { slot, id, len }) && slot == 0 && id
                        == self.resolved() && len == self.data().len() && m.stage()
                        == WriteStage::Truncate && m.keeps(&self)
                } else {
                    s matches Step::Finish(Ok(()))
                },
                Reply::Done(Err(e)) => finishes_err(
                    s,
                    fs_error_kind(e),
                    "Failed to write `"@ + self.path() + "`: "@ + fs_error_name(e),
                ),
                _ => false,
            },
            s matches Step::Call(_, Request::Write { .. }) ==> reply matches Reply::Stat(Some(i))
                && i.kind == Kind::File,
            s matches Step::Finish(Ok(())) ==> self.stage() == WriteStage::Truncate,
    {
        match reply {
            Reply::Resolved(Ok(id)) => Step::Call(
                WriteOp { id, stage: WriteStage::Stat, ..self },
                Request::Stat { slot: 0, id },
            ),
            Reply::Resolved(Err(e)) => Step::Finish(
                err(kind_from(e), cat4("Can't resolve `", self.path.as_str(), "`: ", e.name())),
            ),
            Reply::Stat(Some(inode)) => {
                if inode.kind != Kind::File {
                    Step::Finish(
                        err(ErrorKind::IsADirectory, cat3("Can't write `", self.path.as_str(), "`: Not a file")),
                    )
                } else {
                    let id = self.id;
                    let data = copy_bytes(&self.data);
                    Step::Call(WriteOp { stage: WriteStage::Write, ..self }, Request::Write { slot: 0, id, data })
                }
            },
            Reply::Stat(None) => Step::Finish(
                err(ErrorKind::Other, cat3("Can't stat `", self.path.as_str(), "`")),
            ),
            Reply::Done(Ok(())) => {
                if self.stage == WriteStage::Write {
                    let id = self.id;
                    let len = self.data.len();
                    Step::Call(WriteOp { stage: WriteStage::Truncate, ..self }, Request::Truncate { slot: 0, id, len })
                } else {
                    Step::Finish(Ok(()))
                }
            },
            Reply::Done(Err(e)) => Step::Finish(
                err(kind_from(e), cat4("Failed to write `", self.path.as_str(), "`: ", e.name())),
            ),
            _ => {
                assert(false);
                Step::Finish(Ok(()))
            },
        }
    }
}

/// A copy of `v`.
fn copy_bytes(v: &Vec<u8>) -> (c: Vec<u8>)
    ensures
        c@ == v@,
{
    vstd::slice::slice_to_vec(v.as_slice())
}

/// Writes `contents` as the whole contents of the file `path` names: asks
/// for its resolution.
pub fn write(path: Path<'_>, contents: &[u8]) -> (s: Step<WriteOp, ()>)
    ensures
        s matches Step::Call(m, Request::Resolve { path: p, slot }) && p@ == path@ && slot == 0
            && m.stage() == WriteStage::Resolve && m.path() == path@ && m.data() == contents@,
{
    let op = WriteOp {
        path: PathBuf::from_path(path),
        id: InodeId(0, 0),
        data: vstd::slice::slice_to_vec(contents),
        stage: WriteStage::Resolve,
    };
    Step::Call(op, Request::Resolve { path: PathBuf::from_path(path).into_string(), slot: 0 })
}

// ---------------------------------------------------------------------------
// create_dir
// ---------------------------------------------------------------------------

/// Where the creation of a directory stands.
#[derive(Debug, Clone, Copy, PartialEq, Eq, Structural)]
pub enum CreateStage {
    /// Waiting for the resolution of the parent.
    Resolve,
    /// Waiting for the attributes of the parent.
    Stat,
    /// Waiting for the new directory.
    New,
    /// Waiting for the outcome of linking the new directory under its name.
    Link,
}

/// The message of an attempt to create the root.
pub open spec fn create_root_message() -> Seq<char> {
    "Attempt to create root"@
}

/// How the creation of a directory at `path` starts: with the resolution of
/// its parent, or with a failure when it has no parent.
pub open spec fn create_starts<M>(s: Step<M, ()>, path: Seq<char>) -> bool {
    match spec_parent(path) {
        Some(p) => s matches Step::Call(_, Request::Resolve { path: q, slot }) && q@ == p && slot == 0,
        None => finishes_err(s, ErrorKind::NotFound, create_root_message()),
    }
}

/// The views of an optional name.
pub open spec fn name_view(n: Option<String>) -> Option<Seq<char>> {
    match n {
        Some(s) => Some(s@),
        None => None,
    }
}

/// The creation of a directory: a new directory made from the attributes
/// of the parent, then linked into the parent under the file name when the
/// path has one.
pub struct CreateDirOp {
    parent: PathBuf,
    name: Option<String>,
    parent_id: InodeId,
    stage: CreateStage,
}

impl CreateDirOp {
    /// The parent of the directory created.
    pub closed spec fn parent(&self) -> Seq<char> {
        self.parent@
    }

    /// The name the directory is linked under, if the path has one.
    pub closed spec fn name(&self) -> Option<Seq<char>> {
        name_view(self.name)
    }

    /// What the parent resolved to (meaningful once resolved).
    pub closed spec fn parent_id(&self) -> InodeId {
        self.parent_id
    }

    /// Where the creation stands.
    pub closed spec fn stage(&self) -> CreateStage {
        self.stage
    }

    /// `self` creates what `other` does.
    pub open spec fn keeps(&self, other: &CreateDirOp) -> bool {
        self.parent() == other.parent() && self.name() == other.name()
    }

    /// The reply the creation waits for.
    pub open spec fn spec_awaits(&self) -> ReplyKind {
        match self.stage() {
            CreateStage::Resolve => ReplyKind::Resolved,
            CreateStage::Stat => ReplyKind::Stat,
            CreateStage::New => ReplyKind::Created,
            CreateStage::Link => ReplyKind::Done,
        }
    }

    /// The reply the creation waits for.
    pub fn awaits(&self) -> (k: ReplyKind)
        ensures
            k == self.spec_awaits(),
    {
        match self.stage {
            CreateStage::Resolve => ReplyKind::Resolved,
            CreateStage::Stat => ReplyKind::Stat,
            CreateStage::New => ReplyKind::Created,
            CreateStage::Link => ReplyKind::Done,
        }
    }

    /// Takes the kernel's reply: the parent is resolved and stat'ed and must
    /// be a directory; a directory is made from its attributes and linked
    /// into the parent under the file name. The creation succeeds once that
    /// link is made, or, for a path without a file name, once the directory
    /// is made.
    pub fn resume(self, reply: Reply) -> (s: Step<CreateDirOp, ()>)
        requires
            kind_of(reply) == self.spec_awaits(),
        ensures
            match reply {
                Reply::Resolved(Ok(id)) => s matches Step::Call(m, Request::Stat { slot, id: i })
                    && slot == 0 && i == id && m.stage() == CreateStage::Stat && m.parent_id() == id
                    && m.keeps(&self),
                Reply::Resolved(Err(e)) => finishes_err(
                    s,
                    fs_error_kind(e),
                    "Can't resolve `"@ + self.parent() + "`: "@ + fs_error_name(e),
                ),
                Reply::Stat(Some(inode)) => if inode.kind == Kind::Directory {
                    s matches Step::Call(m, Request::New { slot, inode: i, kind }) && slot == 0 && i
                        == inode && kind == Kind::Directory && m.stage() == CreateStage::New
                        && m.parent_id() == self.parent_id() && m.keeps(&self)
                } else {
                    finishes_err(s, ErrorKind::NotADirectory, "`"@ + self.parent() + "` is not a directory"@)
                },
                Reply::Stat(None) => finishes_err(s, ErrorKind::Other, "Can't stat `"@ + self.parent() + "`"@),
                Reply::Created(Ok(id)) => match self.name() {
                    Some(n) => s matches Step::Call(m, Request::Link { slot, parent, name, child })
                        && slot == 0 && parent == self.parent_id() && name@ == n && child == id
                        && m.stage() == CreateStage::Link && m.parent_id() == self.parent_id()
                        && m.keeps(&self),
                    None => s matches Step::Finish(Ok(())),
                },
                Reply::Created(Err(e)) => finishes_err(s, fs_error_kind(e), "Error: "@ + fs_error_name(e)),
                Reply::Done(Ok(())) => s matches Step::Finish(Ok(())),
                Reply::Done(Err(e)) => finishes_err(s, fs_error_kind(e), "Error: "@ + fs_error_name(e)),
                _ => false,
            },
            s matches Step::Call(_, Request::New { .. }) ==> (reply matches Reply::Stat(Some(i))
                && i.kind == Kind::Directory),
            s matches Step::Finish(Ok(())) ==> (reply matches Reply::Done(Ok(())) && self.stage()
                == CreateStage::Link) || (reply matches Reply::Created(Ok(_)) && self.name() is None),
    {
        match reply {
            Reply::Resolved(Ok(id)) => Step::Call(
                CreateDirOp { parent_id: id, stage: CreateStage::Stat, ..self },
                Request::Stat { slot: 0, id },
            ),
            Reply::Resolved(Err(e)) => Step::Finish(
                err(kind_from(e), cat4("Can't resolve `", self.parent.as_str(), "`: ", e.name())),
            ),
            Reply::Stat(Some(inode)) => {
                if inode.kind != Kind::Directory {
                    Step::Finish(
                        err(ErrorKind::NotADirectory, cat3("`", self.parent.as_str(), "` is not a directory")),
                    )
                } else {
                    Step::Call(
                        CreateDirOp { stage: CreateStage::New, ..self },
                        Request::New { slot: 0, inode, kind: Kind::Directory },
                    )
                }
            },
            Reply::Stat(None) => Step::Finish(
                err(ErrorKind::Other, cat3("Can't stat `", self.parent.as_str(), "`")),
            ),
            Reply::Created(Ok(id)) => match &self.name {
                Some(n) => {
                    let parent = self.parent_id;
                    let name = copy_string(n);
                    Step::Call(
                        CreateDirOp { stage: CreateStage::Link, ..self },
                        Request::Link { slot: 0, parent, name, child: id },
                    )
                },
                None => Step::Finish(Ok(())),
            },
            Reply::Created(Err(e)) => Step::Finish(err(kind_from(e), cat2("Error: ", e.name()))),
            Reply::Done(Ok(())) => Step::Finish(Ok(())),
            Reply::Done(Err(e)) => Step::Finish(err(kind_from(e), cat2("Error: ", e.name()))),
            _ => {
                assert(false);
                Step::Finish(Ok(()))
            },
        }
    }
}

/// The creation of a directory at `path`, when it has a parent.
fn start_create(path: Path<'_>) -> (r: Option<CreateDirOp>)
    ensures
        match spec_parent(path@) {
            Some(p) => r matches Some(m) && m.stage() == CreateStage::Resolve && m.parent() == p
                && m.name() == spec_file_name(path@),
            None => r is None,
        },
{
    match path.parent() {
        Some(p) => {
            let name = match path.file_name() {
                Some(n) => Some(text(n)),
                None => None,
            };
            Some(CreateDirOp { parent: PathBuf::from_path(p), name, parent_id: InodeId(0, 0), stage: CreateStage::Resolve })
        },
        None => None,
    }
}

/// The failure of a creation at `path` that cannot start: the root.
fn create_refusal<M>(path: Path<'_>) -> (s: Step<M, ()>)
    requires
        spec_parent(path@) is None,
    ensures
        create_starts(s, path@),
{
    Step::Finish(err(ErrorKind::NotFound, text("Attempt to create root")))
}

/// Creates a directory at `path`: fails at once for a path without a
/// parent, else asks for the resolution of the parent. A path with a parent
/// but no file name (such as `a/..`) is created without being linked.
pub fn create_dir(path: Path<'_>) -> (s: Step<CreateDirOp, ()>)
    ensures
        create_starts(s, path@),
        s matches Step::Call(m, _) ==> m.stage() == CreateStage::Resolve && Some(m.parent())
            == spec_parent(path@) && m.name() == spec_file_name(path@),
{
    match start_create(path) {
        Some(m) => {
            let q = PathBuf::from_str(m.parent.as_str()).into_string();
            Step::Call(m, Request::Resolve { path: q, slot: 0 })
        },
        None => create_refusal(path),
    }
}

// ---------------------------------------------------------------------------
// create_dir_all
// ---------------------------------------------------------------------------

/// The creation of a directory and of the missing directories above it.
/// The creation of `target` is under way; `pending` holds the paths to
/// create once it succeeds, the next one last; `retrying` tells whether
/// `target` is created again after its parent was made.
pub struct CreateDirAllOp {
    path: PathBuf,
    target: PathBuf,
    pending: Vec<PathBuf>,
    retrying: bool,
    inner: CreateDirOp,
}

/// The views of the paths in `v`.
pub open spec fn path_views(v: Seq<PathBuf>) -> Seq<Seq<char>> {
    Seq::new(v.len(), |i: int| v[i]@)
}

/// What `create_dir_all` does to create `target` with `pending` left: it
/// starts as `create_dir` does on `target`.
pub open spec fn starts(
    s: Step<CreateDirAllOp, ()>,
    path: Seq<char>,
    target: Seq<char>,
    pending: Seq<Seq<char>>,
    retrying: bool,
) -> bool {
    &&& create_starts(s, target)
    &&& s matches Step::Call(m, _) ==> m.path() == path && m.target() == target && m.pending()
        == pending && m.retrying() == retrying && m.inner().stage() == CreateStage::Resolve
        && Some(m.inner().parent()) == spec_parent(target) && m.inner().name()
        == spec_file_name(target)
}

/// `pending` is a chain from the parent-to-be-made `target` down to `path`:
/// each path is the parent of the one before it in the chain, `pending[0]`
/// is `path`, and with nothing pending `target` is `path`.
pub open spec fn chain(path: Seq<char>, target: Seq<char>, pending: Seq<Seq<char>>) -> bool {
    &&& if pending.len() == 0 {
        target == path
    } else {
        &&& pending[0] == path
        &&& spec_parent(pending.last()) == Some(target)
    }
    &&& forall|i: int| 0 <= i < pending.len() - 1 ==> spec_parent(#[trigger] pending[i]) == Some(pending[i + 1])
}

/// What follows the failure, with kind `kind` and message `message`, of
/// the creation of `target`: on a first attempt a `NotFound` failure moves
/// up to the parent, keeping `target` to create after it; anything else is
/// the result.
pub open spec fn after_err(
    s: Step<CreateDirAllOp, ()>,
    path: Seq<char>,
    target: Seq<char>,
    pending: Seq<Seq<char>>,
    retrying: bool,
    kind: ErrorKind,
    message: Seq<char>,
) -> bool {
    if !retrying && kind == ErrorKind::NotFound {
        match spec_parent(target) {
            Some(p) => starts(s, path, p, pending.push(target), false),
            None => finishes_err(s, ErrorKind::NotFound, create_root_message()),
        }
    } else {
        finishes_err(s, kind, message)
    }
}

/// What follows the creation of a path with `pending` left: the next
/// pending path is created again, or, with none left, the whole creation
/// succeeded.
pub open spec fn after_ok(s: Step<CreateDirAllOp, ()>, path: Seq<char>, pending: Seq<Seq<char>>) -> bool {
    if pending.len() == 0 {
        s matches Step::Finish(Ok(()))
    } else {
        starts(s, path, pending.last(), pending.drop_last(), true)
    }
}

impl CreateDirAllOp {
    /// The path asked for.
    pub closed spec fn path(&self) -> Seq<char> {
        self.path@
    }

    /// The path whose creation is under way.
    pub closed spec fn target(&self) -> Seq<char> {
        self.target@
    }

    /// The paths to create once `target` exists, the next one last.
    pub closed spec fn pending(&self) -> Seq<Seq<char>> {
        path_views(self.pending@)
    }

    /// Whether `target` is created again after its parent was made.
    pub closed spec fn retrying(&self) -> bool {
        self.retrying
    }

    /// The creation under way.
    pub closed spec fn inner(&self) -> CreateDirOp {
        self.inner
    }

    /// The creation under way is of `target`, and the paths still to create
    /// form a chain from it down to the path asked for.
    pub open spec fn wf(&self) -> bool {
        &&& spec_parent(self.target()) == Some(self.inner().parent())
        &&& spec_file_name(self.target()) == self.inner().name()
        &&& chain(self.path(), self.target(), self.pending())
    }

    /// `self` goes on with the creation `other` has under way.
    pub open spec fn continues(&self, other: &CreateDirAllOp) -> bool {
        &&& self.path() == other.path()
        &&& self.target() == other.target()
        &&& self.pending() == other.pending()
        &&& self.retrying() == other.retrying()
        &&& self.inner().keeps(&other.inner())
    }

    /// The reply the creation waits for.
    pub open spec fn spec_awaits(&self) -> ReplyKind {
        self.inner().spec_awaits()
    }

    /// The reply the creation waits for.
    pub fn awaits(&self) -> (k: ReplyKind)
        ensures
            k == self.spec_awaits(),
    {
        self.inner.awaits()
    }

    /// Starts the creation of `target` with `pending` left.
    fn start(path: PathBuf, target: PathBuf, pending: Vec<PathBuf>, retrying: bool) -> (s: Step<CreateDirAllOp, ()>)
        ensures
            starts(s, path@, target@, path_views(pending@), retrying),
    {
        match start_create(target.as_path()) {
            Some(inner) => {
                let q = PathBuf::from_str(inner.parent.as_str()).into_string();
                Step::Call(CreateDirAllOp { path, target, pending, retrying, inner }, Request::Resolve { path: q, slot: 0 })
            },
            None => create_refusal(target.as_path()),
        }
    }

    /// Goes on after the creation of `target` failed with `e`.
    fn failed(path: PathBuf, target: PathBuf, pending: Vec<PathBuf>, retrying: bool, e: Error) -> (s: Step<CreateDirAllOp, ()>)
        requires
            chain(path@, target@, path_views(pending@)),
        ensures
            after_err(s, path@, target@, path_views(pending@), retrying, e.spec_kind(), e.spec_message()),
            s matches Step::Call(m, _) ==> m.wf(),
            !(s matches Step::Finish(Ok(_))),
    {
        if !retrying && e.kind() == ErrorKind::NotFound {
            let up = match target.as_path().parent() {
                Some(p) => Some(PathBuf::from_path(p)),
                None => None,
            };
            match up {
                Some(p) => {
                    let ghost old_pending = path_views(pending@);
                    let ghost t = target@;
                    let mut pending = pending;
                    pending.push(target);
                    proof {
                        assert(path_views(pending@) =~= old_pending.push(t));
                    }
                    Self::start(path, p, pending, false)
                },
                None => Step::Finish(err(ErrorKind::NotFound, text("Attempt to create root"))),
            }
        } else {
            Step::Finish(Err(e))
        }
    }

    /// Goes on after a creation succeeded with `pending` left.
    fn succeeded(path: PathBuf, target: PathBuf, pending: Vec<PathBuf>) -> (s: Step<CreateDirAllOp, ()>)
        requires
            chain(path@, target@, path_views(pending@)),
        ensures
            after_ok(s, path@, path_views(pending@)),
            s matches Step::Call(m, _) ==> m.wf(),
            s matches Step::Finish(Ok(_)) ==> pending@.len() == 0 && target@ == path@,
    {
        let ghost views = path_views(pending@);
        let mut pending = pending;
        match pending.pop() {
            Some(next) => {
                proof {
                    assert(path_views(pending@) =~= views.drop_last());
                }
                Self::start(path, next, pending, true)
            },
            None => Step::Finish(Ok(())),
        }
    }

    /// Takes the kernel's reply as the creation under way does. A success
    /// goes on with the next pending path, or ends; a failure goes as
    /// `after_err` says. The whole creation succeeds only when the path
    /// asked for was created last.
    pub fn resume(self, reply: Reply) -> (s: Step<CreateDirAllOp, ()>)
        requires
            kind_of(reply) == self.spec_awaits(),
            self.wf(),
        ensures
            s matches Step::Call(m, _) ==> m.wf(),
            match reply {
                Reply::Resolved(Ok(id)) => s matches Step::Call(m, Request::Stat { slot, id: i })
                    && slot == 0 && i == id && m.inner().stage() == CreateStage::Stat
                    && m.inner().parent_id() == id && m.continues(&self),
                Reply::Resolved(Err(e)) => after_err(
                    s,
                    self.path(),
                    self.target(),
                    self.pending(),
                    self.retrying(),
                    fs_error_kind(e),
                    "Can't resolve `"@ + self.inner().parent() + "`: "@ + fs_error_name(e),
                ),
                Reply::Stat(Some(inode)) => if inode.kind == Kind::Directory {
                    s matches Step::Call(m, Request::New { slot, inode: i, kind }) && slot == 0 && i
                        == inode && kind == Kind::Directory && m.inner().stage() == CreateStage::New
                        && m.inner().parent_id() == self.inner().parent_id() && m.continues(&self)
                } else {
                    after_err(
                        s,
                        self.path(),
                        self.target(),
                        self.pending(),
                        self.retrying(),
                        ErrorKind::NotADirectory,
                        "`"@ + self.inner().parent() + "` is not a directory"@,
                    )
                },
                Reply::Stat(None) => after_err(
                    s,
                    self.path(),
                    self.target(),
                    self.pending(),
                    self.retrying(),
                    ErrorKind::Other,
                    "Can't stat `"@ + self.inner().parent() + "`"@,
                ),
                Reply::Created(Ok(id)) => match self.inner().name() {
                    Some(n) => s matches Step::Call(
                        m,
                        Request::Link { slot, parent, name, child },
                    ) && slot == 0 && parent == self.inner().parent_id() && name@ == n && child == id
                        && m.inner().stage() == CreateStage::Link && m.inner().parent_id()
                        == self.inner().parent_id() && m.continues(&self),
                    None => after_ok(s, self.path(), self.pending()),
                },
                Reply::Created(Err(e)) => after_err(
                    s,
                    self.path(),
                    self.target(),
                    self.pending(),
                    self.retrying(),
                    fs_error_kind(e),
                    "Error: "@ + fs_error_name(e),
                ),
                Reply::Done(Ok(())) => after_ok(s, self.path(), self.pending()),
                Reply::Done(Err(e)) => after_err(
                    s,
                    self.path(),
                    self.target(),
                    self.pending(),
                    self.retrying(),
                    fs_error_kind(e),
                    "Error: "@ + fs_error_name(e),
                ),
                _ => false,
            },
            s matches Step::Finish(Ok(())) ==> self.pending().len() == 0 && self.target() == self.path()
                && ((reply matches Reply::Done(Ok(())) && self.inner().stage() == CreateStage::Link)
                || (reply matches Reply::Created(Ok(_)) && self.inner().name() is None)),
    {
        let CreateDirAllOp { path, target, pending, retrying, inner } = self;
        match inner.resume(reply) {
            Step::Call(m, q) => Step::Call(CreateDirAllOp { path, target, pending, retrying, inner: m }, q),
            Step::Finish(Ok(())) => Self::succeeded(path, target, pending),
            Step::Finish(Err(e)) => Self::failed(path, target, pending, retrying, e),
        }
    }
}

/// Creates a directory at `path` and the missing directories above it:
/// fails at once for a path without a parent, else asks for the
/// resolution of the parent.
pub fn create_dir_all(path: Path<'_>) -> (s: Step<CreateDirAllOp, ()>)
    ensures
        starts(s, path@, path@, Seq::empty(), false),
        s matches Step::Call(m, _) ==> m.wf(),
{
    let pending: Vec<PathBuf> = Vec::new();
    proof {
        assert(path_views(pending@) =~= Seq::<Seq<char>>::empty());
    }
    CreateDirAllOp::start(PathBuf::from_path(path), PathBuf::from_path(path), pending, false)
}

} // verus!
