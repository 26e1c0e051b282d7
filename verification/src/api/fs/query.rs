//! Queries: whether a path exists and the metadata of what it names.

use vstd::prelude::*;
use crate::api::fs::meta::Metadata;
use crate::api::fs::ops::{
    cat2, cat3, cat4, err, finishes_err, kind_from, kind_of, Reply, ReplyKind, Request, Step,
};
use crate::api::fs::time::Time;
use crate::api::path::{spec_file_name, spec_parent, Path, PathBuf};
use crate::io::ErrorKind;
use crate::raw::vfs::{fs_error_kind, fs_error_name, FsError};

verus! {

// ---------------------------------------------------------------------------
// exists
// ---------------------------------------------------------------------------

/// Whether a path exists: waits for the resolution of the path.
pub struct ExistsOp {
    _private: (),
}

impl ExistsOp {
    /// The reply the operation waits for.
    pub open spec fn spec_awaits(&self) -> ReplyKind {
        ReplyKind::Resolved
    }

    /// The reply the operation waits for.
    pub fn awaits(&self) -> (k: ReplyKind)
        ensures
            k == self.spec_awaits(),
    {
        ReplyKind::Resolved
    }

    /// Takes the resolution: found gives `true`, no entry gives `false`,
    /// any other error is returned.
    pub fn resume(self, reply: Reply) -> (s: Step<ExistsOp, bool>)
        requires
            kind_of(reply) == self.spec_awaits(),
        ensures
            match reply {
                Reply::Resolved(Ok(_)) => s matches Step::Finish(Ok(b)) && b,
                Reply::Resolved(Err(FsError::NoEntry)) => s matches Step::Finish(Ok(b)) && !b,
                Reply::Resolved(Err(e)) => finishes_err(s, fs_error_kind(e), "Error: "@ + fs_error_name(e)),
                _ => false,
            },
    {
        match reply {
            Reply::Resolved(Ok(_)) => Step::Finish(Ok(true)),
            Reply::Resolved(Err(FsError::NoEntry)) => Step::Finish(Ok(false)),
            Reply::Resolved(Err(e)) => Step::Finish(err(kind_from(e), cat2("Error: ", e.name()))),
            _ => {
                assert(false);
                Step::Finish(Ok(false))
            },
        }
    }
}

/// Whether `path` names an existing object: asks for its resolution.
pub fn path_exists(path: Path<'_>) -> (s: Step<ExistsOp, bool>)
    ensures
        s matches Step::Call(_, Request::Resolve { path: p, slot }) && p@ == path@ && slot == 0,
{
    Step::Call(ExistsOp { _private: () }, Request::Resolve { path: PathBuf::from_path(path).into_string(), slot: 0 })
}

// ---------------------------------------------------------------------------
// metadata
// ---------------------------------------------------------------------------

/// Where a metadata query stands.
#[derive(Debug, Clone, Copy, PartialEq, Eq, Structural)]
pub enum MetadataStage {
    /// Waiting for the resolution of the path.
    Resolve,
    /// Waiting for the attributes of what it names.
    Stat,
}

/// The metadata of what a path names.
pub struct MetadataOp {
    path: PathBuf,
    stage: MetadataStage,
}

impl MetadataOp {
    /// The queried path.
    pub closed spec fn path(&self) -> Seq<char> {
        self.path@
    }

    /// Where the query stands.
    pub closed spec fn stage(&self) -> MetadataStage {
        self.stage
    }

    /// The reply the query waits for.
    pub open spec fn spec_awaits(&self) -> ReplyKind {
        match self.stage() {
            MetadataStage::Resolve => ReplyKind::Resolved,
            MetadataStage::Stat => ReplyKind::Stat,
        }
    }

    /// The reply the query waits for.
    pub fn awaits(&self) -> (k: ReplyKind)
        ensures
            k == self.spec_awaits(),
    {
        match self.stage {
            MetadataStage::Resolve => ReplyKind::Resolved,
            MetadataStage::Stat => ReplyKind::Stat,
        }
    }

    /// Takes the kernel's reply: a resolved path is stat'ed, and its
    /// attributes are the metadata.
    pub fn resume(self, reply: Reply) -> (s: Step<MetadataOp, Metadata>)
        requires
            kind_of(reply) == self.spec_awaits(),
        ensures
            match reply {
                Reply::Resolved(Ok(id)) => s matches Step::Call(m, Request::Stat { slot, id: i })
                    && slot == 0 && i == id && m.stage() == MetadataStage::Stat && m.path()
                    == self.path(),
                Reply::Resolved(Err(e)) => finishes_err(s, fs_error_kind(e), "Error: "@ + fs_error_name(e)),
                Reply::Stat(Some(inode)) => s matches Step::Finish(Ok(md)) && md.inode() == inode,
                Reply::Stat(None) => finishes_err(s, ErrorKind::Other, "Can't stat `"@ + self.path() + "`"@),
                _ => false,
            },
    {
        match reply {
            Reply::Resolved(Ok(id)) => Step::Call(
                MetadataOp { path: self.path, stage: MetadataStage::Stat },
                Request::Stat { slot: 0, id },
            ),
            Reply::Resolved(Err(e)) => Step::Finish(err(kind_from(e), cat2("Error: ", e.name()))),
            Reply::Stat(Some(inode)) => Step::Finish(Ok(Metadata::of(inode))),
            Reply::Stat(None) => Step::Finish(
                err(ErrorKind::Other, cat3("Can't stat `", self.path.as_str(), "`")),
            ),
            _ => {
                assert(false);
                Step::Finish(err(ErrorKind::Other, cat2("", "")))
            },
        }
    }
}

/// The metadata of what `path` names: asks for its resolution.
pub fn metadata(path: Path<'_>) -> (s: Step<MetadataOp, Metadata>)
    ensures
        s matches Step::Call(m, Request::Resolve { path: p, slot }) && p@ == path@ && slot == 0
            && m.stage() == MetadataStage::Resolve && m.path() == path@,
{
    let op = MetadataOp { path: PathBuf::from_path(path), stage: MetadataStage::Resolve };
    Step::Call(op, Request::Resolve { path: PathBuf::from_path(path).into_string(), slot: 0 })
}

// ---------------------------------------------------------------------------
// Timestamps
// ---------------------------------------------------------------------------

/// Which timestamp a query reads.
#[derive(Debug, Clone, Copy, PartialEq, Eq, Structural)]
pub enum TimeField {
    Accessed,
    Modified,
    Created,
}

/// The timestamp `field` of the object `md` describes.
pub open spec fn time_of(md: Metadata, field: TimeField) -> Time {
    match field {
        TimeField::Accessed => md.inode().atime,
        TimeField::Modified => md.inode().mtime,
        TimeField::Created => md.inode().ctime,
    }
}

/// A timestamp of what a path names: its metadata, then one field of it.
pub struct TimeOp {
    meta: MetadataOp,
    field: TimeField,
}

impl TimeOp {
    /// The metadata query underneath.
    pub closed spec fn meta(&self) -> MetadataOp {
        self.meta
    }

    /// The field read.
    pub closed spec fn field(&self) -> TimeField {
        self.field
    }

    /// The reply the query waits for.
    pub open spec fn spec_awaits(&self) -> ReplyKind {
        self.meta().spec_awaits()
    }

    /// The reply the query waits for.
    pub fn awaits(&self) -> (k: ReplyKind)
        ensures
            k == self.spec_awaits(),
    {
        self.meta.awaits()
    }

    /// Takes the kernel's reply as the metadata query does, and finishes
    /// with the chosen timestamp of the metadata.
    pub fn resume(self, reply: Reply) -> (s: Step<TimeOp, Time>)
        requires
            kind_of(reply) == self.spec_awaits(),
        ensures
            match reply {
                Reply::Resolved(Ok(id)) => s matches Step::Call(t, Request::Stat { slot, id: i })
                    && slot == 0 && i == id && t.meta().stage() == MetadataStage::Stat
                    && t.meta().path() == self.meta().path() && t.field() == self.field(),
                Reply::Resolved(Err(e)) => finishes_err(s, fs_error_kind(e), "Error: "@ + fs_error_name(e)),
                Reply::Stat(Some(inode)) => s matches Step::Finish(Ok(t)) && t == match self.field() {
                    TimeField::Accessed => inode.atime,
                    TimeField::Modified => inode.mtime,
                    TimeField::Created => inode.ctime,
                },
                Reply::Stat(None) => finishes_err(s, ErrorKind::Other, "Can't stat `"@ + self.meta().path() + "`"@),
                _ => false,
            },
    {
        let field = self.field;
        match self.meta.resume(reply) {
            Step::Call(m, q) => Step::Call(TimeOp { meta: m, field }, q),
            Step::Finish(Ok(md)) => {
                let t = match field {
                    TimeField::Accessed => md.accessed(),
                    TimeField::Modified => md.modified(),
                    TimeField::Created => md.created(),
                };
                Step::Finish(Ok(t))
            },
            Step::Finish(Err(e)) => Step::Finish(Err(e)),
        }
    }
}

/// A timestamp query: asks for the resolution of `path`.
fn time_query(path: Path<'_>, field: TimeField) -> (s: Step<TimeOp, Time>)
    ensures
        s matches Step::Call(t, Request::Resolve { path: p, slot }) && p@ == path@ && slot == 0
            && t.meta().stage() == MetadataStage::Resolve && t.meta().path() == path@ && t.field()
            == field,
{
    let meta = MetadataOp { path: PathBuf::from_path(path), stage: MetadataStage::Resolve };
    Step::Call(TimeOp { meta, field }, Request::Resolve { path: PathBuf::from_path(path).into_string(), slot: 0 })
}

/// The last modification time of what `path` names.
pub fn modified(path: Path<'_>) -> (s: Step<TimeOp, Time>)
    ensures
        s matches Step::Call(t, Request::Resolve { path: p, slot }) && p@ == path@ && slot == 0
            && t.meta().stage() == MetadataStage::Resolve && t.meta().path() == path@ && t.field()
            == TimeField::Modified,
{
    time_query(path, TimeField::Modified)
}

/// The last access time of what `path` names.
pub fn accessed(path: Path<'_>) -> (s: Step<TimeOp, Time>)
    ensures
        s matches Step::Call(t, Request::Resolve { path: p, slot }) && p@ == path@ && slot == 0
            && t.meta().stage() == MetadataStage::Resolve && t.meta().path() == path@ && t.field()
            == TimeField::Accessed,
{
    time_query(path, TimeField::Accessed)
}

/// The creation time of what `path` names.
pub fn created(path: Path<'_>) -> (s: Step<TimeOp, Time>)
    ensures
        s matches Step::Call(t, Request::Resolve { path: p, slot }) && p@ == path@ && slot == 0
            && t.meta().stage() == MetadataStage::Resolve && t.meta().path() == path@ && t.field()
            == TimeField::Created,
{
    time_query(path, TimeField::Created)
}

// ---------------------------------------------------------------------------
// symlink_metadata
// ---------------------------------------------------------------------------

/// Where a metadata query that does not follow a final link stands.
#[derive(Debug, Clone, Copy, PartialEq, Eq, Structural)]
pub enum SymlinkStage {
    /// The path has no parent or no file name: waiting for its resolution.
    ResolvePath,
    /// Waiting for the attributes of what the path names.
    StatPath,
    /// Waiting for the resolution of the parent.
    ResolveParent,
    /// Waiting for the file name to be looked up in the parent.
    Lookup,
    /// Waiting for the attributes of the entry found.
    StatEntry,
}

/// The metadata of what a path names, without following a final link.
pub struct SymlinkMetadataOp {
    path: PathBuf,
    name: String,
    parent: PathBuf,
    stage: SymlinkStage,
}

impl SymlinkMetadataOp {
    /// The queried path.
    pub closed spec fn path(&self) -> Seq<char> {
        self.path@
    }

    /// The file name of the path.
    pub closed spec fn name(&self) -> Seq<char> {
        self.name@
    }

    /// The parent of the path.
    pub closed spec fn parent(&self) -> Seq<char> {
        self.parent@
    }

    /// Where the query stands.
    pub closed spec fn stage(&self) -> SymlinkStage {
        self.stage
    }

    /// The reply the query waits for.
    pub open spec fn spec_awaits(&self) -> ReplyKind {
        match self.stage() {
            SymlinkStage::ResolvePath | SymlinkStage::ResolveParent => ReplyKind::Resolved,
            SymlinkStage::Lookup => ReplyKind::Found,
            SymlinkStage::StatPath | SymlinkStage::StatEntry => ReplyKind::Stat,
        }
    }

    /// The reply the query waits for.
    pub fn awaits(&self) -> (k: ReplyKind)
        ensures
            k == self.spec_awaits(),
    {
        match self.stage {
            SymlinkStage::ResolvePath | SymlinkStage::ResolveParent => ReplyKind::Resolved,
            SymlinkStage::Lookup => ReplyKind::Found,
            SymlinkStage::StatPath | SymlinkStage::StatEntry => ReplyKind::Stat,
        }
    }

    /// The same query in another stage.
    fn at(self, stage: SymlinkStage) -> (m: SymlinkMetadataOp)
        ensures
            m == self.at_spec(stage),
            m.stage() == stage,
            m.path() == self.path(),
            m.name() == self.name(),
            m.parent() == self.parent(),
    {
        SymlinkMetadataOp { stage, ..self }
    }

    /// Takes the kernel's reply. Without a parent and a file name the query
    /// is that of `metadata`; otherwise the parent is resolved, the file
    /// name looked up in it, and the entry found stat'ed.
    pub fn resume(self, reply: Reply) -> (s: Step<SymlinkMetadataOp, Metadata>)
        requires
            kind_of(reply) == self.spec_awaits(),
        ensures
            match (self.stage(), reply) {
                (SymlinkStage::ResolvePath, Reply::Resolved(Ok(id))) => s matches Step::Call(
                    m,
                    Request::Stat { slot, id: i },
                ) && slot == 0 && i == id && m.stage() == SymlinkStage::StatPath && m.keeps(&self),
                (SymlinkStage::ResolvePath, Reply::Resolved(Err(e))) => finishes_err(
                    s,
                    fs_error_kind(e),
                    "Error: "@ + fs_error_name(e),
                ),
                (SymlinkStage::ResolveParent, Reply::Resolved(Ok(id))) => s matches Step::Call(
                    m,
                    Request::Lookup { slot, dir, name },
                ) && slot == 0 && dir == id && name@ == self.name() && m.stage() == SymlinkStage::Lookup && m.keeps(&self),
                (SymlinkStage::ResolveParent, Reply::Resolved(Err(e))) => finishes_err(
                    s,
                    fs_error_kind(e),
                    "Can't resolve parent `"@ + self.parent() + "`: "@ + fs_error_name(e),
                ),
                (SymlinkStage::Lookup, Reply::Found(Some(id))) => s matches Step::Call(
                    m,
                    Request::Stat { slot, id: i },
                ) && slot == 0 && i == id && m.stage() == SymlinkStage::StatEntry && m.keeps(&self),
                (SymlinkStage::Lookup, Reply::Found(None)) => finishes_err(
                    s,
                    ErrorKind::NotFound,
                    "`"@ + self.path() + "` not found"@,
                ),
                (_, Reply::Stat(Some(inode))) => s matches Step::Finish(Ok(md)) && md.inode()
                    == inode,
                (_, Reply::Stat(None)) => finishes_err(
                    s,
                    ErrorKind::Other,
                    "Can't stat `"@ + self.path() + "`"@,
                ),
                _ => false,
            },
    {
        match reply {
            Reply::Resolved(Ok(id)) => {
                if self.stage == SymlinkStage::ResolvePath {
                    Step::Call(self.at(SymlinkStage::StatPath), Request::Stat { slot: 0, id })
                } else {
                    let name = copy_string(&self.name);
                    Step::Call(self.at(SymlinkStage::Lookup), Request::Lookup { slot: 0, dir: id, name })
                }
            },
            Reply::Resolved(Err(e)) => {
                if self.stage == SymlinkStage::ResolvePath {
                    Step::Finish(err(kind_from(e), cat2("Error: ", e.name())))
                } else {
                    Step::Finish(
                        err(
                            kind_from(e),
                            cat4("Can't resolve parent `", self.parent.as_str(), "`: ", e.name()),
                        ),
                    )
                }
            },
            Reply::Found(Some(id)) => Step::Call(
                self.at(SymlinkStage::StatEntry),
                Request::Stat { slot: 0, id },
            ),
            Reply::Found(None) => Step::Finish(
                err(ErrorKind::NotFound, cat3("`", self.path.as_str(), "` not found")),
            ),
            Reply::Stat(Some(inode)) => Step::Finish(Ok(Metadata::of(inode))),
            Reply::Stat(None) => Step::Finish(
                err(ErrorKind::Other, cat3("Can't stat `", self.path.as_str(), "`")),
            ),
            _ => {
                assert(false);
                Step::Finish(err(ErrorKind::Other, cat2("", "")))
            },
        }
    }

    /// The same query in another stage.
    pub closed spec fn at_spec(self, stage: SymlinkStage) -> SymlinkMetadataOp {
        SymlinkMetadataOp { stage, ..self }
    }

    /// `self` queries what `other` does.
    pub open spec fn keeps(&self, other: &SymlinkMetadataOp) -> bool {
        self.path() == other.path() && self.name() == other.name() && self.parent() == other.parent()
    }
}

/// The metadata of what `path` names, not following a final link: asks
/// for the resolution of the parent, or of the path itself when it has no
/// parent or no file name.
pub fn symlink_metadata(path: Path<'_>) -> (s: Step<SymlinkMetadataOp, Metadata>)
    ensures
        match (spec_parent(path@), spec_file_name(path@)) {
            (Some(p), Some(n)) => s matches Step::Call(m, Request::Resolve { path: q, slot })
                && q@ == p && slot == 0 && m.stage() == SymlinkStage::ResolveParent && m.path()
                == path@ && m.parent() == p && m.name() == n,
            _ => s matches Step::Call(m, Request::Resolve { path: q, slot }) && q@ == path@ && slot
                == 0 && m.stage() == SymlinkStage::ResolvePath && m.path() == path@,
        },
{
    match (path.parent(), path.file_name()) {
        (Some(p), Some(n)) => {
            let op = SymlinkMetadataOp {
                path: PathBuf::from_path(path),
                name: <String as StringExecFns>::from_str(n),
                parent: PathBuf::from_path(p),
                stage: SymlinkStage::ResolveParent,
            };
            Step::Call(op, Request::Resolve { path: PathBuf::from_path(p).into_string(), slot: 0 })
        },
        _ => {
            let op = SymlinkMetadataOp {
                path: PathBuf::from_path(path),
                name: String::new(),
                parent: PathBuf::new(),
                stage: SymlinkStage::ResolvePath,
            };
            Step::Call(op, Request::Resolve { path: PathBuf::from_path(path).into_string(), slot: 0 })
        },
    }
}

/// A copy of `s`.
pub fn copy_string(s: &String) -> (c: String)
    ensures
        c@ == s@,
{
    <String as StringExecFns>::from_str(s.as_str())
}


} // verus!
