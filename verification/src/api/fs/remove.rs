//! Removing files and directories.

use vstd::prelude::*;
use crate::api::fs::ops::{
    cat3, cat4, err, finishes_err, kind_from, kind_of, text, Reply, ReplyKind, Request, Step,
};
use crate::api::fs::query::copy_string;
use crate::api::path::{spec_file_name, spec_parent, Path, PathBuf};
use crate::io::ErrorKind;
use crate::raw::vfs::{fs_error_kind, fs_error_name, InodeId, Kind};

verus! {

/// The message of an attempt to remove the root.
pub open spec fn remove_root_message() -> Seq<char> {
    "Cannot remove root"@
}

// ---------------------------------------------------------------------------
// remove_file, remove_dir
// ---------------------------------------------------------------------------

/// Where a removal stands.
#[derive(Debug, Clone, Copy, PartialEq, Eq, Structural)]
pub enum RemoveStage {
    /// Waiting for the resolution of the parent.
    ResolveParent,
    /// Waiting for the file name to be looked up in the parent.
    Lookup,
    /// Waiting for the attributes of the entry.
    Stat,
    /// Waiting for the listing of the directory (directories only).
    List,
    /// Waiting for the outcome of the unlink.
    Unlink,
}

/// The removal of a file (`dir` false) or of an empty directory (`dir`
/// true).
pub struct RemoveOp {
    path: PathBuf,
    parent: PathBuf,
    name: String,
    parent_id: InodeId,
    id: InodeId,
    stage: RemoveStage,
    dir: bool,
}

impl RemoveOp {
    /// The path removed.
    pub closed spec fn path(&self) -> Seq<char> {
        self.path@
    }

    /// Its parent.
    pub closed spec fn parent(&self) -> Seq<char> {
        self.parent@
    }

    /// Its file name.
    pub closed spec fn name(&self) -> Seq<char> {
        self.name@
    }

    /// What the parent resolved to (meaningful once resolved).
    pub closed spec fn parent_id(&self) -> InodeId {
        self.parent_id
    }

    /// What the file name was found as (meaningful once found).
    pub closed spec fn entry(&self) -> InodeId {
        self.id
    }

    /// Where the removal stands.
    pub closed spec fn stage(&self) -> RemoveStage {
        self.stage
    }

    /// Whether a directory is removed.
    pub closed spec fn dir(&self) -> bool {
        self.dir
    }

    /// The reply the removal waits for.
    pub open spec fn spec_awaits(&self) -> ReplyKind {
        match self.stage() {
            RemoveStage::ResolveParent => ReplyKind::Resolved,
            RemoveStage::Lookup => ReplyKind::Found,
            RemoveStage::Stat => ReplyKind::Stat,
            RemoveStage::List => ReplyKind::Listing,
            RemoveStage::Unlink => ReplyKind::Done,
        }
    }

    /// The reply the removal waits for.
    pub fn awaits(&self) -> (k: ReplyKind)
        ensures
            k == self.spec_awaits(),
    {
        match self.stage {
            RemoveStage::ResolveParent => ReplyKind::Resolved,
            RemoveStage::Lookup => ReplyKind::Found,
            RemoveStage::Stat => ReplyKind::Stat,
            RemoveStage::List => ReplyKind::Listing,
            RemoveStage::Unlink => ReplyKind::Done,
        }
    }

    /// Only the removal of a directory lists it.
    pub open spec fn wf(&self) -> bool {
        self.stage() == RemoveStage::List ==> self.dir()
    }

    /// `self` removes what `other` does.
    pub open spec fn keeps(&self, other: &RemoveOp) -> bool {
        &&& self.path() == other.path()
        &&& self.parent() == other.parent()
        &&& self.name() == other.name()
        &&& self.dir() == other.dir()
    }

    /// The same removal in another stage.
    fn at(self, stage: RemoveStage) -> (m: RemoveOp)
        ensures
            m.stage() == stage,
            m.keeps(&self),
            m.parent_id() == self.parent_id(),
            m.entry() == self.entry(),
    {
        RemoveOp { stage, ..self }
    }

    /// Takes the kernel's reply: the parent is resolved, the file name
    /// looked up in it and the entry stat'ed. A file must not be a
    /// directory; a directory must be one, and its listing empty. Then the
    /// name is unlinked from the parent.
    pub fn resume(self, reply: Reply) -> (s: Step<RemoveOp, ()>)
        requires
            kind_of(reply) == self.spec_awaits(),
            self.wf(),
        ensures
            s matches Step::Call(m, _) ==> m.wf(),
            match reply {
                Reply::Resolved(Ok(id)) => s matches Step::Call(m, Request::Lookup { slot, dir, name })
                    && slot == 0 && dir == id && name@ == self.name() && m.stage()
                    == RemoveStage::Lookup && m.parent_id() == id && m.keeps(&self),
                Reply::Resolved(Err(e)) => finishes_err(
                    s,
                    fs_error_kind(e),
                    "Can't resolve parent `"@ + self.parent() + "`: "@ + fs_error_name(e),
                ),
                Reply::Found(Some(id)) => s matches Step::Call(m, Request::Stat { slot, id: i })
                    && slot == 0 && i == id && m.stage() == RemoveStage::Stat && m.parent_id()
                    == self.parent_id() && m.entry() == id && m.keeps(&self),
                Reply::Found(None) => finishes_err(s, ErrorKind::NotFound, "`"@ + self.path() + "` not found"@),
                Reply::Stat(Some(inode)) => if !self.dir() && inode.kind == Kind::Directory {
                    finishes_err(s, ErrorKind::IsADirectory, "`"@ + self.path() + "` is a directory"@)
                } else if self.dir() && inode.kind != Kind::Directory {
                    finishes_err(s, ErrorKind::NotADirectory, "`"@ + self.path() + "` is not a directory"@)
                } else if self.dir() {
                    s matches Step::Call(m, Request::ListDir { slot, dir }) && slot == 0 && dir
                        == self.entry() && m.stage() == RemoveStage::List && m.parent_id()
                        == self.parent_id() && m.keeps(&self)
                } else {
                    s matches Step::Call(m, Request::Unlink { slot, dir, name }) && slot == 0 && dir
                        == self.parent_id() && name@ == self.name() && m.stage() == RemoveStage::Unlink
                        && m.keeps(&self)
                },
                Reply::Stat(None) => finishes_err(s, ErrorKind::Other, "Can't stat `"@ + self.path() + "`"@),
                Reply::Listing(entries) => if entries.len() > 0 {
                    finishes_err(s, ErrorKind::DirectoryNotEmpty, "`"@ + self.path() + "` is not empty"@)
                } else {
                    s matches Step::Call(m, Request::Unlink { slot, dir, name }) && slot == 0 && dir
                        == self.parent_id() && name@ == self.name() && m.stage() == RemoveStage::Unlink
                        && m.keeps(&self)
                },
                Reply::Done(Ok(())) => s matches Step::Finish(Ok(())),
                Reply::Done(Err(e)) => finishes_err(
                    s,
                    fs_error_kind(e),
                    "Failed to remove `"@ + self.path() + "`: "@ + fs_error_name(e),
                ),
                _ => false,
            },
            s matches Step::Call(_, Request::Unlink { .. }) ==> if self.dir() {
                reply matches Reply::Listing(entries) && entries.len() == 0
            } else {
                reply matches Reply::Stat(Some(i)) && i.kind != Kind::Directory
            },
    {
        match reply {
            Reply::Resolved(Ok(id)) => {
                let name = copy_string(&self.name);
                Step::Call(
                    RemoveOp { parent_id: id, stage: RemoveStage::Lookup, ..self },
                    Request::Lookup { slot: 0, dir: id, name },
                )
            },
            Reply::Resolved(Err(e)) => Step::Finish(
                err(kind_from(e), cat4("Can't resolve parent `", self.parent.as_str(), "`: ", e.name())),
            ),
            Reply::Found(Some(id)) => Step::Call(
                RemoveOp { id, stage: RemoveStage::Stat, ..self },
                Request::Stat { slot: 0, id },
            ),
            Reply::Found(None) => Step::Finish(
                err(ErrorKind::NotFound, cat3("`", self.path.as_str(), "` not found")),
            ),
            Reply::Stat(Some(inode)) => {
                if !self.dir && inode.kind == Kind::Directory {
                    Step::Finish(err(ErrorKind::IsADirectory, cat3("`", self.path.as_str(), "` is a directory")))
                } else if self.dir && inode.kind != Kind::Directory {
                    Step::Finish(
                        err(ErrorKind::NotADirectory, cat3("`", self.path.as_str(), "` is not a directory")),
                    )
                } else if self.dir {
                    let dir = self.id;
                    Step::Call(self.at(RemoveStage::List), Request::ListDir { slot: 0, dir })
                } else {
                    let dir = self.parent_id;
                    let name = copy_string(&self.name);
                    Step::Call(self.at(RemoveStage::Unlink), Request::Unlink { slot: 0, dir, name })
                }
            },
            Reply::Stat(None) => Step::Finish(
                err(ErrorKind::Other, cat3("Can't stat `", self.path.as_str(), "`")),
            ),
            Reply::Listing(entries) => {
                if entries.len() > 0 {
                    Step::Finish(
                        err(ErrorKind::DirectoryNotEmpty, cat3("`", self.path.as_str(), "` is not empty")),
                    )
                } else {
                    let dir = self.parent_id;
                    let name = copy_string(&self.name);
                    Step::Call(self.at(RemoveStage::Unlink), Request::Unlink { slot: 0, dir, name })
                }
            },
            Reply::Done(Ok(())) => Step::Finish(Ok(())),
            Reply::Done(Err(e)) => Step::Finish(
                err(kind_from(e), cat4("Failed to remove `", self.path.as_str(), "`: ", e.name())),
            ),
            _ => {
                assert(false);
                Step::Finish(Ok(()))
            },
        }
    }
}

/// A removal of `path`: fails at once for a path without a parent or a
/// file name, else asks for the resolution of the parent.
fn start_remove(path: Path<'_>, dir: bool) -> (s: Step<RemoveOp, ()>)
    ensures
        match (spec_parent(path@), spec_file_name(path@)) {
            (Some(p), Some(n)) => s matches Step::Call(m, Request::Resolve { path: q, slot }) && q@
                == p && slot == 0 && m.stage() == RemoveStage::ResolveParent && m.path() == path@
                && m.parent() == p && m.name() == n && m.dir() == dir && m.wf(),
            _ => finishes_err(s, ErrorKind::Other, remove_root_message()),
        },
{
    match (path.parent(), path.file_name()) {
        (Some(p), Some(n)) => {
            let op = RemoveOp {
                path: PathBuf::from_path(path),
                parent: PathBuf::from_path(p),
                name: text(n),
                parent_id: InodeId(0, 0),
                id: InodeId(0, 0),
                stage: RemoveStage::ResolveParent,
                dir,
            };
            Step::Call(op, Request::Resolve { path: PathBuf::from_path(p).into_string(), slot: 0 })
        },
        _ => Step::Finish(err(ErrorKind::Other, text("Cannot remove root"))),
    }
}

/// Removes the file `path` names (anything but a directory).
pub fn remove_file(path: Path<'_>) -> (s: Step<RemoveOp, ()>)
    ensures
        match (spec_parent(path@), spec_file_name(path@)) {
            (Some(p), Some(n)) => s matches Step::Call(m, Request::Resolve { path: q, slot }) && q@
                == p && slot == 0 && m.stage() == RemoveStage::ResolveParent && m.path() == path@
                && m.parent() == p && m.name() == n && !m.dir() && m.wf(),
            _ => finishes_err(s, ErrorKind::Other, remove_root_message()),
        },
{
    start_remove(path, false)
}

/// Removes the empty directory `path` names.
pub fn remove_dir(path: Path<'_>) -> (s: Step<RemoveOp, ()>)
    ensures
        match (spec_parent(path@), spec_file_name(path@)) {
            (Some(p), Some(n)) => s matches Step::Call(m, Request::Resolve { path: q, slot }) && q@
                == p && slot == 0 && m.stage() == RemoveStage::ResolveParent && m.path() == path@
                && m.parent() == p && m.name() == n && m.dir() && m.wf(),
            _ => finishes_err(s, ErrorKind::Other, remove_root_message()),
        },
{
    start_remove(path, true)
}

// ---------------------------------------------------------------------------
// remove_dir_all
// ---------------------------------------------------------------------------

/// Work left for a recursive removal.
pub enum Task {
    /// Stat the entry `name` (`id`) of `parent`, empty it if it is a
    /// directory, then unlink it.
    Visit { parent: InodeId, name: String, id: InodeId },
    /// Unlink the entry `name` of `parent`.
    Unlink { parent: InodeId, name: String },
}

/// The visits of the entries of `dir`, the last entry first: on a stack,
/// the first entry is visited first.
pub open spec fn visits(dir: InodeId, entries: Seq<(String, InodeId)>) -> Seq<Task> {
    Seq::new(
        entries.len(),
        |i: int| Task::Visit { parent: dir, name: entries[entries.len() - 1 - i].0, id: entries[entries.len() - 1 - i].1 },
    )
}

/// Where a recursive removal stands.
pub enum RemoveAllStage {
    /// Waiting for the resolution of the path (a path without a parent or a
    /// file name).
    ResolvePath,
    /// Waiting for the resolution of the parent of the path.
    ResolveParent,
    /// Waiting for the file name to be looked up in the parent, a final
    /// link not followed.
    LookupTop,
    /// Waiting for the attributes of what the path names.
    StatPath,
    /// Waiting for the listing of that directory.
    ListTop,
    /// Waiting for the attributes of an entry being visited.
    StatEntry { parent: InodeId, name: String, id: InodeId },
    /// Waiting for the listing of an entry being visited.
    ListEntry { parent: InodeId, name: String, id: InodeId },
    /// Waiting for the outcome of the unlink of the entry `name`.
    UnlinkEntry { name: String },
    /// Waiting for the outcome of the unlink of the path from its parent.
    UnlinkTop,
}

/// The removal of what a path names together with everything under it.
/// A path with a parent and a file name is looked up in its parent, so a
/// final symbolic link is removed itself and not followed.
pub struct RemoveAllOp {
    path: PathBuf,
    parent: PathBuf,
    name: String,
    named: bool,
    parent_id: InodeId,
    top: InodeId,
    tasks: Vec<Task>,
    stage: RemoveAllStage,
}

/// What the removal does with `tasks` left, in the context of `o`: it takes
/// the last task (a visit stats the entry, an unlink unlinks it); with none
/// left it unlinks the path from its parent, or fails when the path has no
/// parent or no file name.
pub open spec fn proceeds(s: Step<RemoveAllOp, ()>, o: RemoveAllOp, tasks: Seq<Task>) -> bool {
    if tasks.len() > 0 {
        match tasks.last() {
            Task::Visit { parent, name, id } => s matches Step::Call(m, Request::Stat { slot, id: i })
                && slot == 0 && i == id && m.keeps(&o) && m.tasks() == tasks.drop_last()
                && m.stage() == (RemoveAllStage::StatEntry { parent, name, id }),
            Task::Unlink { parent, name } => s matches Step::Call(m, Request::Unlink { slot, dir, name: n })
                && slot == 0 && dir == parent && n@ == name@ && m.keeps(&o) && m.tasks()
                == tasks.drop_last() && m.stage() == (RemoveAllStage::UnlinkEntry { name }),
        }
    } else if o.named() {
        s matches Step::Call(m, Request::Unlink { slot, dir, name }) && slot == 0 && dir
            == o.parent_id() && name@ == o.name() && m.keeps(&o) && m.tasks().len() == 0
            && m.stage() == RemoveAllStage::UnlinkTop
    } else {
        finishes_err(s, ErrorKind::Other, remove_root_message())
    }
}

/// `tasks` followed by the visits of `entries` of `dir`.
fn with_visits(tasks: Vec<Task>, dir: InodeId, entries: Vec<(String, InodeId)>) -> (r: Vec<Task>)
    ensures
        r@ == tasks@ + visits(dir, entries@),
{
    let mut tasks = tasks;
    let mut entries = entries;
    let ghost base = tasks@;
    let ghost all = entries@;
    while entries.len() > 0
        invariant
            entries@.len() <= all.len(),
            entries@ == all.take(entries@.len() as int),
            tasks@ == base + visits(dir, all.skip(entries@.len() as int)),
        decreases entries.len(),
    {
        let (name, id) = entries.pop().unwrap();
        tasks.push(Task::Visit { parent: dir, name, id });
        proof {
            assert(entries@ =~= all.take(entries@.len() as int));
            assert(tasks@ =~= base + visits(dir, all.skip(entries@.len() as int)));
        }
    }
    proof {
        assert(all.skip(0) =~= all);
    }
    tasks
}

impl RemoveAllOp {
    /// The path removed.
    pub closed spec fn path(&self) -> Seq<char> {
        self.path@
    }

    /// The parent of the path (when it has one and a file name).
    pub closed spec fn parent(&self) -> Seq<char> {
        self.parent@
    }

    /// The file name of the path (when it has one and a parent).
    pub closed spec fn name(&self) -> Seq<char> {
        self.name@
    }

    /// Whether the path has a parent and a file name.
    pub closed spec fn named(&self) -> bool {
        self.named
    }

    /// What the parent resolved to (meaningful once resolved).
    pub closed spec fn parent_id(&self) -> InodeId {
        self.parent_id
    }

    /// What the path names (meaningful once found).
    pub closed spec fn top(&self) -> InodeId {
        self.top
    }

    /// The work left, the next task last.
    pub closed spec fn tasks(&self) -> Seq<Task> {
        self.tasks@
    }

    /// Where the removal stands.
    pub closed spec fn stage(&self) -> RemoveAllStage {
        self.stage
    }

    /// `self` removes what `other` does, and knows what it found.
    pub open spec fn keeps(&self, other: &RemoveAllOp) -> bool {
        &&& self.path() == other.path()
        &&& self.parent() == other.parent()
        &&& self.name() == other.name()
        &&& self.named() == other.named()
        &&& self.parent_id() == other.parent_id()
        &&& self.top() == other.top()
    }

    /// The reply the removal waits for.
    pub open spec fn spec_awaits(&self) -> ReplyKind {
        match self.stage() {
            RemoveAllStage::ResolvePath | RemoveAllStage::ResolveParent => ReplyKind::Resolved,
            RemoveAllStage::LookupTop => ReplyKind::Found,
            RemoveAllStage::StatPath | RemoveAllStage::StatEntry { .. } => ReplyKind::Stat,
            RemoveAllStage::ListTop | RemoveAllStage::ListEntry { .. } => ReplyKind::Listing,
            RemoveAllStage::UnlinkEntry { .. } | RemoveAllStage::UnlinkTop => ReplyKind::Done,
        }
    }

    /// The reply the removal waits for.
    pub fn awaits(&self) -> (k: ReplyKind)
        ensures
            k == self.spec_awaits(),
    {
        match self.stage {
            RemoveAllStage::ResolvePath | RemoveAllStage::ResolveParent => ReplyKind::Resolved,
            RemoveAllStage::LookupTop => ReplyKind::Found,
            RemoveAllStage::StatPath | RemoveAllStage::StatEntry { .. } => ReplyKind::Stat,
            RemoveAllStage::ListTop | RemoveAllStage::ListEntry { .. } => ReplyKind::Listing,
            RemoveAllStage::UnlinkEntry { .. } | RemoveAllStage::UnlinkTop => ReplyKind::Done,
        }
    }

    /// Goes on with `tasks` left, in the context of `self`.
    fn proceed(self, tasks: Vec<Task>) -> (s: Step<RemoveAllOp, ()>)
        ensures
            proceeds(s, self, tasks@),
    {
        let mut tasks = tasks;
        match tasks.pop() {
            Some(Task::Visit { parent, name, id }) => Step::Call(
                RemoveAllOp { tasks, stage: RemoveAllStage::StatEntry { parent, name, id }, ..self },
                Request::Stat { slot: 0, id },
            ),
            Some(Task::Unlink { parent, name }) => {
                let n = copy_string(&name);
                Step::Call(
                    RemoveAllOp { tasks, stage: RemoveAllStage::UnlinkEntry { name }, ..self },
                    Request::Unlink { slot: 0, dir: parent, name: n },
                )
            },
            None => {
                if self.named {
                    let dir = self.parent_id;
                    let n = copy_string(&self.name);
                    Step::Call(
                        RemoveAllOp { tasks, stage: RemoveAllStage::UnlinkTop, ..self },
                        Request::Unlink { slot: 0, dir, name: n },
                    )
                } else {
                    Step::Finish(err(ErrorKind::Other, text("Cannot remove root")))
                }
            },
        }
    }

    /// Takes the kernel's reply. The parent of the path is resolved and the
    /// file name looked up in it, a final link not followed (a path without
    /// a parent or a file name is resolved as it is); what the path names is
    /// stat'ed. A directory is listed and each entry visited in turn, the
    /// first entry first: an entry is stat'ed, a directory among them is
    /// listed and visited in the same way, and each entry is unlinked once
    /// what it held is gone. Then the path is unlinked from its parent. Only
    /// what was stat'ed as a directory is listed, so a symbolic link is
    /// unlinked and not followed.
    pub fn resume(self, reply: Reply) -> (s: Step<RemoveAllOp, ()>)
        requires
            kind_of(reply) == self.spec_awaits(),
        ensures
            match (self.stage(), reply) {
                (RemoveAllStage::ResolvePath, Reply::Resolved(Ok(id))) => s matches Step::Call(
                    m,
                    Request::Stat { slot, id: i },
                ) && slot == 0 && i == id && m.top() == id && m.tasks() == self.tasks() && m.stage()
                    == RemoveAllStage::StatPath && m.path() == self.path() && m.named() == self.named(),
                (RemoveAllStage::ResolvePath, Reply::Resolved(Err(e))) => finishes_err(
                    s,
                    fs_error_kind(e),
                    "Can't resolve `"@ + self.path() + "`: "@ + fs_error_name(e),
                ),
                (RemoveAllStage::ResolveParent, Reply::Resolved(Ok(id))) => s matches Step::Call(
                    m,
                    Request::Lookup { slot, dir, name },
                ) && slot == 0 && dir == id && name@ == self.name() && m.parent_id() == id
                    && m.tasks() == self.tasks() && m.stage() == RemoveAllStage::LookupTop && m.path()
                    == self.path() && m.parent() == self.parent() && m.name() == self.name()
                    && m.named() == self.named(),
                (RemoveAllStage::ResolveParent, Reply::Resolved(Err(e))) => finishes_err(
                    s,
                    fs_error_kind(e),
                    "Can't resolve parent `"@ + self.parent() + "`: "@ + fs_error_name(e),
                ),
                (RemoveAllStage::LookupTop, Reply::Found(Some(id))) => s matches Step::Call(
                    m,
                    Request::Stat { slot, id: i },
                ) && slot == 0 && i == id && m.top() == id && m.tasks() == self.tasks() && m.stage()
                    == RemoveAllStage::StatPath && m.path() == self.path() && m.parent()
                    == self.parent() && m.name() == self.name() && m.named() == self.named()
                    && m.parent_id() == self.parent_id(),
                (RemoveAllStage::LookupTop, Reply::Found(None)) => finishes_err(
                    s,
                    ErrorKind::NotFound,
                    "`"@ + self.path() + "` not found"@,
                ),
                (RemoveAllStage::StatPath, Reply::Stat(None)) => finishes_err(
                    s,
                    ErrorKind::Other,
                    "Can't stat `"@ + self.path() + "`"@,
                ),
                (RemoveAllStage::StatPath, Reply::Stat(Some(inode))) => if inode.kind
                    == Kind::Directory {
                    s matches Step::Call(m, Request::ListDir { slot, dir }) && slot == 0 && dir
                        == self.top() && m.keeps(&self) && m.tasks() == self.tasks() && m.stage()
                        == RemoveAllStage::ListTop
                } else {
                    proceeds(s, self, self.tasks())
                },
                (RemoveAllStage::ListTop, Reply::Listing(entries)) => proceeds(
                    s,
                    self,
                    self.tasks() + visits(self.top(), entries@),
                ),
                (RemoveAllStage::StatEntry { .. }, Reply::Stat(None)) => finishes_err(
                    s,
                    ErrorKind::Other,
                    "Can't stat entry"@,
                ),
                (
                    RemoveAllStage::StatEntry { parent, name, id },
                    Reply::Stat(Some(inode)),
                ) => if inode.kind == Kind::Directory {
                    s matches Step::Call(m, Request::ListDir { slot, dir }) && slot == 0 && dir == id
                        && m.keeps(&self) && m.tasks() == self.tasks() && m.stage()
                        == (RemoveAllStage::ListEntry { parent, name, id })
                } else {
                    proceeds(s, self, self.tasks().push(Task::Unlink { parent, name }))
                },
                (RemoveAllStage::ListEntry { parent, name, id }, Reply::Listing(entries)) => proceeds(
                    s,
                    self,
                    self.tasks().push(Task::Unlink { parent, name }) + visits(id, entries@),
                ),
                (RemoveAllStage::UnlinkEntry { .. }, Reply::Done(Ok(()))) => proceeds(
                    s,
                    self,
                    self.tasks(),
                ),
                (RemoveAllStage::UnlinkEntry { name }, Reply::Done(Err(e))) => finishes_err(
                    s,
                    fs_error_kind(e),
                    "Failed to unlink `"@ + name@ + "`: "@ + fs_error_name(e),
                ),
                (RemoveAllStage::UnlinkTop, Reply::Done(Ok(()))) => s matches Step::Finish(Ok(())),
                (RemoveAllStage::UnlinkTop, Reply::Done(Err(e))) => finishes_err(
                    s,
                    fs_error_kind(e),
                    "Failed to remove `"@ + self.path() + "`: "@ + fs_error_name(e),
                ),
                _ => false,
            },
            s matches Step::Call(_, Request::ListDir { .. }) ==> reply matches Reply::Stat(Some(i))
                && i.kind == Kind::Directory,
    {
        let RemoveAllOp { path, parent, name, named, parent_id, top, tasks, stage } = self;
        let ctx = RemoveAllOp {
            path,
            parent,
            name,
            named,
            parent_id,
            top,
            tasks: Vec::new(),
            stage: RemoveAllStage::UnlinkTop,
        };
        match (stage, reply) {
            (RemoveAllStage::ResolvePath, Reply::Resolved(Ok(id))) => Step::Call(
                RemoveAllOp { top: id, tasks, stage: RemoveAllStage::StatPath, ..ctx },
                Request::Stat { slot: 0, id },
            ),
            (RemoveAllStage::ResolvePath, Reply::Resolved(Err(e))) => Step::Finish(
                err(kind_from(e), cat4("Can't resolve `", ctx.path.as_str(), "`: ", e.name())),
            ),
            (RemoveAllStage::ResolveParent, Reply::Resolved(Ok(id))) => {
                let n = copy_string(&ctx.name);
                Step::Call(
                    RemoveAllOp { parent_id: id, tasks, stage: RemoveAllStage::LookupTop, ..ctx },
                    Request::Lookup { slot: 0, dir: id, name: n },
                )
            },
            (RemoveAllStage::ResolveParent, Reply::Resolved(Err(e))) => Step::Finish(
                err(kind_from(e), cat4("Can't resolve parent `", ctx.parent.as_str(), "`: ", e.name())),
            ),
            (RemoveAllStage::LookupTop, Reply::Found(Some(id))) => Step::Call(
                RemoveAllOp { top: id, tasks, stage: RemoveAllStage::StatPath, ..ctx },
                Request::Stat { slot: 0, id },
            ),
            (RemoveAllStage::LookupTop, Reply::Found(None)) => Step::Finish(
                err(ErrorKind::NotFound, cat3("`", ctx.path.as_str(), "` not found")),
            ),
            (RemoveAllStage::StatPath, Reply::Stat(None)) => Step::Finish(
                err(ErrorKind::Other, cat3("Can't stat `", ctx.path.as_str(), "`")),
            ),
            (RemoveAllStage::StatPath, Reply::Stat(Some(inode))) => {
                if inode.kind == Kind::Directory {
                    let dir = ctx.top;
                    Step::Call(
                        RemoveAllOp { tasks, stage: RemoveAllStage::ListTop, ..ctx },
                        Request::ListDir { slot: 0, dir },
                    )
                } else {
                    ctx.proceed(tasks)
                }
            },
            (RemoveAllStage::ListTop, Reply::Listing(entries)) => {
                let dir = ctx.top;
                ctx.proceed(with_visits(tasks, dir, entries))
            },
            (RemoveAllStage::StatEntry { .. }, Reply::Stat(None)) => Step::Finish(
                err(ErrorKind::Other, text("Can't stat entry")),
            ),
            (RemoveAllStage::StatEntry { parent, name, id }, Reply::Stat(Some(inode))) => {
                if inode.kind == Kind::Directory {
                    Step::Call(
                        RemoveAllOp { tasks, stage: RemoveAllStage::ListEntry { parent, name, id }, ..ctx },
                        Request::ListDir { slot: 0, dir: id },
                    )
                } else {
                    let mut tasks = tasks;
                    tasks.push(Task::Unlink { parent, name });
                    ctx.proceed(tasks)
                }
            },
            (RemoveAllStage::ListEntry { parent, name, id }, Reply::Listing(entries)) => {
                let mut tasks = tasks;
                tasks.push(Task::Unlink { parent, name });
                ctx.proceed(with_visits(tasks, id, entries))
            },
            (RemoveAllStage::UnlinkEntry { .. }, Reply::Done(Ok(()))) => ctx.proceed(tasks),
            (RemoveAllStage::UnlinkEntry { name }, Reply::Done(Err(e))) => Step::Finish(
                err(kind_from(e), cat4("Failed to unlink `", name.as_str(), "`: ", e.name())),
            ),
            (RemoveAllStage::UnlinkTop, Reply::Done(Ok(()))) => Step::Finish(Ok(())),
            (RemoveAllStage::UnlinkTop, Reply::Done(Err(e))) => Step::Finish(
                err(kind_from(e), cat4("Failed to remove `", ctx.path.as_str(), "`: ", e.name())),
            ),
            _ => {
                assert(false);
                Step::Finish(Ok(()))
            },
        }
    }
}

/// Removes what `path` names and, for a directory, everything under it; a
/// final symbolic link is removed, not followed. Asks for the resolution of
/// the parent, or of the path itself when it has no parent or no file name.
pub fn remove_dir_all(path: Path<'_>) -> (s: Step<RemoveAllOp, ()>)
    ensures
        match (spec_parent(path@), spec_file_name(path@)) {
            (Some(p), Some(n)) => s matches Step::Call(m, Request::Resolve { path: q, slot }) && q@
                == p && slot == 0 && m.path() == path@ && m.parent() == p && m.name() == n && m.named()
                && m.tasks().len() == 0 && m.stage() == RemoveAllStage::ResolveParent,
            _ => s matches Step::Call(m, Request::Resolve { path: q, slot }) && q@ == path@ && slot
                == 0 && m.path() == path@ && !m.named() && m.tasks().len() == 0 && m.stage()
                == RemoveAllStage::ResolvePath,
        },
{
    match (path.parent(), path.file_name()) {
        (Some(p), Some(n)) => {
            let op = RemoveAllOp {
                path: PathBuf::from_path(path),
                parent: PathBuf::from_path(p),
                name: text(n),
                named: true,
                parent_id: InodeId(0, 0),
                top: InodeId(0, 0),
                tasks: Vec::new(),
                stage: RemoveAllStage::ResolveParent,
            };
            Step::Call(op, Request::Resolve { path: PathBuf::from_path(p).into_string(), slot: 0 })
        },
        _ => {
            let op = RemoveAllOp {
                path: PathBuf::from_path(path),
                parent: PathBuf::new(),
                name: String::new(),
                named: false,
                parent_id: InodeId(0, 0),
                top: InodeId(0, 0),
                tasks: Vec::new(),
                stage: RemoveAllStage::ResolvePath,
            };
            Step::Call(op, Request::Resolve { path: PathBuf::from_path(path).into_string(), slot: 0 })
        },
    }
}

} // verus!
