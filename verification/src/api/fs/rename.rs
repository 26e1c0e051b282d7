//! Renaming a file: a link at the destination, then the source unlinked.

use vstd::prelude::*;
use crate::api::fs::ops::{
    cat2, cat3, cat4, err, finishes_err, kind_from, kind_of, text, Reply, ReplyKind, Request, Step,
};
use crate::api::fs::query::copy_string;
use crate::api::path::{spec_file_name, spec_parent, Path, PathBuf};
use crate::io::{Error, ErrorKind};
use crate::raw::vfs::{fs_error_kind, fs_error_name, InodeId, Kind};

verus! {

/// Where a rename stands. The source's meta-block is in slot 0, the
/// destination's in slot 1.
pub enum RenameStage {
    /// Waiting for the resolution of the source's parent.
    ResolveFrom,
    /// Waiting for the source's name to be looked up.
    LookupFrom,
    /// Waiting for the attributes of the source.
    StatFrom,
    /// Waiting for the resolution of the destination's parent.
    ResolveTo,
    /// Waiting for the destination's name to be looked up.
    LookupTo,
    /// Waiting for the attributes of what the destination names.
    StatExisting,
    /// Waiting for the outcome of the unlink of what the destination names.
    UnlinkExisting,
    /// Waiting for the outcome of the link at the destination.
    Link,
    /// Waiting for the outcome of the unlink of the source.
    UnlinkSource,
    /// Waiting for the outcome of the unlink of the new link, after the
    /// source could not be unlinked; `error` is the result.
    Cleanup { error: Error },
}

/// The rename of a file.
pub struct RenameOp {
    from: PathBuf,
    to: PathBuf,
    from_parent: PathBuf,
    from_name: String,
    to_parent: PathBuf,
    to_name: String,
    from_parent_id: InodeId,
    source: InodeId,
    source_kind: Kind,
    to_parent_id: InodeId,
    stage: RenameStage,
}

impl RenameOp {
    /// The path renamed.
    pub closed spec fn from(&self) -> Seq<char> {
        self.from@
    }

    /// The new path.
    pub closed spec fn to(&self) -> Seq<char> {
        self.to@
    }

    /// The parent of the source.
    pub closed spec fn from_parent(&self) -> Seq<char> {
        self.from_parent@
    }

    /// The file name of the source.
    pub closed spec fn from_name(&self) -> Seq<char> {
        self.from_name@
    }

    /// The parent of the destination.
    pub closed spec fn to_parent(&self) -> Seq<char> {
        self.to_parent@
    }

    /// The file name of the destination.
    pub closed spec fn to_name(&self) -> Seq<char> {
        self.to_name@
    }

    /// What the source's parent resolved to.
    pub closed spec fn from_parent_id(&self) -> InodeId {
        self.from_parent_id
    }

    /// What the source's name was found as.
    pub closed spec fn source(&self) -> InodeId {
        self.source
    }

    /// The kind the source was stat'ed as.
    pub closed spec fn source_kind(&self) -> Kind {
        self.source_kind
    }

    /// What the destination's parent resolved to.
    pub closed spec fn to_parent_id(&self) -> InodeId {
        self.to_parent_id
    }

    /// Where the rename stands.
    pub closed spec fn stage(&self) -> RenameStage {
        self.stage
    }

    /// Past the check of the source, the source is no directory; past the
    /// resolution of the destination's parent, the destination is another
    /// entry than the source.
    pub open spec fn wf(&self) -> bool {
        match self.stage() {
            RenameStage::ResolveFrom | RenameStage::LookupFrom | RenameStage::StatFrom => true,
            RenameStage::ResolveTo => self.source_kind() != Kind::Directory,
            _ => self.source_kind() != Kind::Directory && !self.same_entry(),
        }
    }

    /// Source and destination are the same name in the same directory.
    pub open spec fn same_entry(&self) -> bool {
        self.to_parent_id() == self.from_parent_id() && self.to_name() == self.from_name()
    }

    /// `self` renames what `other` does.
    pub open spec fn keeps(&self, other: &RenameOp) -> bool {
        &&& self.from() == other.from()
        &&& self.to() == other.to()
        &&& self.from_parent() == other.from_parent()
        &&& self.from_name() == other.from_name()
        &&& self.to_parent() == other.to_parent()
        &&& self.to_name() == other.to_name()
    }

    /// `self` also knows all that `other` found.
    pub open spec fn knows(&self, other: &RenameOp) -> bool {
        &&& self.keeps(other)
        &&& self.from_parent_id() == other.from_parent_id()
        &&& self.source() == other.source()
        &&& self.source_kind() == other.source_kind()
        &&& self.to_parent_id() == other.to_parent_id()
    }

    /// The reply the rename waits for.
    pub open spec fn spec_awaits(&self) -> ReplyKind {
        match self.stage() {
            RenameStage::ResolveFrom | RenameStage::ResolveTo => ReplyKind::Resolved,
            RenameStage::LookupFrom | RenameStage::LookupTo => ReplyKind::Found,
            RenameStage::StatFrom | RenameStage::StatExisting => ReplyKind::Stat,
            _ => ReplyKind::Done,
        }
    }

    /// The reply the rename waits for.
    pub fn awaits(&self) -> (k: ReplyKind)
        ensures
            k == self.spec_awaits(),
    {
        match self.stage {
            RenameStage::ResolveFrom | RenameStage::ResolveTo => ReplyKind::Resolved,
            RenameStage::LookupFrom | RenameStage::LookupTo => ReplyKind::Found,
            RenameStage::StatFrom | RenameStage::StatExisting => ReplyKind::Stat,
            _ => ReplyKind::Done,
        }
    }

    /// The same rename in another stage.
    fn at(self, stage: RenameStage) -> (m: RenameOp)
        ensures
            m.stage() == stage,
            m.knows(&self),
    {
        RenameOp { stage, ..self }
    }

    /// Asks for the link of the source at the destination.
    fn link(self) -> (s: Step<RenameOp, ()>)
        ensures
            s matches Step::Call(m, Request::Link { slot, parent, name, child }) && slot == 1
                && parent == self.to_parent_id() && name@ == self.to_name() && child == self.source()
                && m.stage() == RenameStage::Link && m.knows(&self),
    {
        let parent = self.to_parent_id;
        let child = self.source;
        let name = copy_string(&self.to_name);
        Step::Call(self.at(RenameStage::Link), Request::Link { slot: 1, parent, name, child })
    }

    /// Takes the kernel's reply. The source's parent is resolved, its name
    /// looked up and the source stat'ed: it must not be a directory. The
    /// destination's parent is resolved and its name looked up; what it
    /// names, if it can be stat'ed, must not be a directory and is
    /// unlinked. Then the source is linked at the destination and unlinked
    /// from its parent; when that last unlink fails, the new link is
    /// unlinked again and the failure returned. A rename of an entry onto
    /// itself (the same name in the same directory) changes nothing.
    pub fn resume(self, reply: Reply) -> (s: Step<RenameOp, ()>)
        requires
            kind_of(reply) == self.spec_awaits(),
            self.wf(),
        ensures
            s matches Step::Call(m, _) ==> m.wf(),
            match (self.stage(), reply) {
                (RenameStage::ResolveFrom, Reply::Resolved(Ok(id))) => s matches Step::Call(
                    m,
                    Request::Lookup { slot, dir, name },
                ) && slot == 0 && dir == id && name@ == self.from_name() && m.stage()
                    == RenameStage::LookupFrom && m.from_parent_id() == id && m.keeps(&self),
                (RenameStage::ResolveFrom, Reply::Resolved(Err(e))) => finishes_err(
                    s,
                    fs_error_kind(e),
                    "Can't resolve source parent `"@ + self.from_parent() + "`: "@ + fs_error_name(e),
                ),
                (RenameStage::LookupFrom, Reply::Found(Some(id))) => s matches Step::Call(
                    m,
                    Request::Stat { slot, id: i },
                ) && slot == 0 && i == id && m.stage() == RenameStage::StatFrom && m.source() == id
                    && m.from_parent_id() == self.from_parent_id() && m.keeps(&self),
                (RenameStage::LookupFrom, Reply::Found(None)) => finishes_err(
                    s,
                    ErrorKind::NotFound,
                    "Source `"@ + self.from() + "` not found"@,
                ),
                (RenameStage::StatFrom, Reply::Stat(Some(inode))) => if inode.kind == Kind::Directory {
                    finishes_err(
                        s,
                        ErrorKind::Other,
                        "Renaming directories is not supported: `"@ + self.from() + "`"@,
                    )
                } else {
                    s matches Step::Call(m, Request::Resolve { path, slot }) && path@ == self.to_parent()
                        && slot == 1 && m.stage() == RenameStage::ResolveTo && m.source_kind()
                        == inode.kind && m.source() == self.source() && m.from_parent_id()
                        == self.from_parent_id() && m.keeps(&self)
                },
                (RenameStage::StatFrom, Reply::Stat(None)) => finishes_err(
                    s,
                    ErrorKind::Other,
                    "Can't stat source `"@ + self.from() + "`"@,
                ),
                (RenameStage::ResolveTo, Reply::Resolved(Ok(id))) => if id == self.from_parent_id()
                    && self.to_name() == self.from_name() {
                    s matches Step::Finish(Ok(()))
                } else {
                    s matches Step::Call(m, Request::Lookup { slot, dir, name }) && slot == 1 && dir
                        == id && name@ == self.to_name() && m.stage() == RenameStage::LookupTo
                        && m.to_parent_id() == id && m.source() == self.source() && m.source_kind()
                        == self.source_kind() && m.from_parent_id() == self.from_parent_id()
                        && m.keeps(&self)
                },
                (RenameStage::ResolveTo, Reply::Resolved(Err(e))) => finishes_err(
                    s,
                    fs_error_kind(e),
                    "Can't resolve destination parent `"@ + self.to_parent() + "`: "@ + fs_error_name(e),
                ),
                (RenameStage::LookupTo, Reply::Found(Some(id))) => s matches Step::Call(
                    m,
                    Request::Stat { slot, id: i },
                ) && slot == 1 && i == id && m.stage() == RenameStage::StatExisting && m.knows(&self),
                (RenameStage::LookupTo, Reply::Found(None)) => s matches Step::Call(
                    m,
                    Request::Link { slot, parent, name, child },
                ) && slot == 1 && parent == self.to_parent_id() && name@ == self.to_name() && child
                    == self.source() && m.stage() == RenameStage::Link && m.knows(&self),
                (RenameStage::StatExisting, Reply::Stat(Some(inode))) => if inode.kind
                    == Kind::Directory {
                    finishes_err(
                        s,
                        ErrorKind::IsADirectory,
                        "Destination `"@ + self.to() + "` is a directory"@,
                    )
                } else {
                    s matches Step::Call(m, Request::Unlink { slot, dir, name }) && slot == 1 && dir
                        == self.to_parent_id() && name@ == self.to_name() && m.stage()
                        == RenameStage::UnlinkExisting && m.knows(&self)
                },
                (RenameStage::StatExisting, Reply::Stat(None)) => s matches Step::Call(
                    m,
                    Request::Link { slot, parent, name, child },
                ) && slot == 1 && parent == self.to_parent_id() && name@ == self.to_name() && child
                    == self.source() && m.stage() == RenameStage::Link && m.knows(&self),
                (RenameStage::UnlinkExisting, Reply::Done(Ok(()))) => s matches Step::Call(
                    m,
                    Request::Link { slot, parent, name, child },
                ) && slot == 1 && parent == self.to_parent_id() && name@ == self.to_name() && child
                    == self.source() && m.stage() == RenameStage::Link && m.knows(&self),
                (RenameStage::UnlinkExisting, Reply::Done(Err(e))) => finishes_err(
                    s,
                    fs_error_kind(e),
                    "Failed to remove existing destination: "@ + fs_error_name(e),
                ),
                (RenameStage::Link, Reply::Done(Ok(()))) => s matches Step::Call(
                    m,
                    Request::Unlink { slot, dir, name },
                ) && slot == 0 && dir == self.from_parent_id() && name@ == self.from_name()
                    && m.stage() == RenameStage::UnlinkSource && m.knows(&self),
                (RenameStage::Link, Reply::Done(Err(e))) => finishes_err(
                    s,
                    fs_error_kind(e),
                    "Failed to create link at destination: "@ + fs_error_name(e),
                ),
                (RenameStage::UnlinkSource, Reply::Done(Ok(()))) => s matches Step::Finish(Ok(())),
                (RenameStage::UnlinkSource, Reply::Done(Err(e))) => s matches Step::Call(
                    m,
                    Request::Unlink { slot, dir, name },
                ) && slot == 1 && dir == self.to_parent_id() && name@ == self.to_name() && m.knows(
                    &self,
                ) && (m.stage() matches RenameStage::Cleanup { error } && error.spec_kind()
                    == fs_error_kind(e) && error.spec_message() == "Failed to unlink source: "@
                    + fs_error_name(e)),
                (RenameStage::Cleanup { error }, Reply::Done(_)) => s matches Step::Finish(Err(x)) && x
                    == error,
                _ => false,
            },
            s matches Step::Call(_, Request::Link { child, .. }) ==> child == self.source()
                && self.source_kind() != Kind::Directory,
            s matches Step::Call(m, Request::Unlink { .. }) ==> !m.same_entry(),
            (self.stage() is StatExisting && s matches Step::Call(_, Request::Unlink { .. }))
                ==> (reply matches Reply::Stat(Some(i)) && i.kind != Kind::Directory),
    {
        match reply {
            Reply::Resolved(Ok(id)) => {
                if let RenameStage::ResolveFrom = self.stage {
                    let name = copy_string(&self.from_name);
                    Step::Call(
                        RenameOp { from_parent_id: id, stage: RenameStage::LookupFrom, ..self },
                        Request::Lookup { slot: 0, dir: id, name },
                    )
                } else if id == self.from_parent_id && self.to_name == self.from_name {
                    Step::Finish(Ok(()))
                } else {
                    let name = copy_string(&self.to_name);
                    Step::Call(
                        RenameOp { to_parent_id: id, stage: RenameStage::LookupTo, ..self },
                        Request::Lookup { slot: 1, dir: id, name },
                    )
                }
            },
            Reply::Resolved(Err(e)) => {
                if let RenameStage::ResolveFrom = self.stage {
                    Step::Finish(
                        err(
                            kind_from(e),
                            cat4("Can't resolve source parent `", self.from_parent.as_str(), "`: ", e.name()),
                        ),
                    )
                } else {
                    Step::Finish(
                        err(
                            kind_from(e),
                            cat4("Can't resolve destination parent `", self.to_parent.as_str(), "`: ", e.name()),
                        ),
                    )
                }
            },
            Reply::Found(Some(id)) => {
                if let RenameStage::LookupFrom = self.stage {
                    Step::Call(
                        RenameOp { source: id, stage: RenameStage::StatFrom, ..self },
                        Request::Stat { slot: 0, id },
                    )
                } else {
                    Step::Call(self.at(RenameStage::StatExisting), Request::Stat { slot: 1, id })
                }
            },
            Reply::Found(None) => {
                if let RenameStage::LookupFrom = self.stage {
                    Step::Finish(err(ErrorKind::NotFound, cat3("Source `", self.from.as_str(), "` not found")))
                } else {
                    self.link()
                }
            },
            Reply::Stat(Some(inode)) => {
                if let RenameStage::StatFrom = self.stage {
                    if inode.kind == Kind::Directory {
                        Step::Finish(
                            err(
                                ErrorKind::Other,
                                cat3("Renaming directories is not supported: `", self.from.as_str(), "`"),
                            ),
                        )
                    } else {
                        let path = PathBuf::from_str(self.to_parent.as_str()).into_string();
                        Step::Call(
                            RenameOp { source_kind: inode.kind, stage: RenameStage::ResolveTo, ..self },
                            Request::Resolve { path, slot: 1 },
                        )
                    }
                } else if inode.kind == Kind::Directory {
                    Step::Finish(
                        err(ErrorKind::IsADirectory, cat3("Destination `", self.to.as_str(), "` is a directory")),
                    )
                } else {
                    let dir = self.to_parent_id;
                    let name = copy_string(&self.to_name);
                    Step::Call(self.at(RenameStage::UnlinkExisting), Request::Unlink { slot: 1, dir, name })
                }
            },
            Reply::Stat(None) => {
                if let RenameStage::StatFrom = self.stage {
                    Step::Finish(err(ErrorKind::Other, cat3("Can't stat source `", self.from.as_str(), "`")))
                } else {
                    self.link()
                }
            },
            Reply::Done(outcome) => {
                match self.stage {
                    RenameStage::UnlinkExisting => match outcome {
                        Ok(()) => self.link(),
                        Err(e) => Step::Finish(
                            err(kind_from(e), cat2("Failed to remove existing destination: ", e.name())),
                        ),
                    },
                    RenameStage::Link => match outcome {
                        Ok(()) => {
                            let dir = self.from_parent_id;
                            let name = copy_string(&self.from_name);
                            Step::Call(self.at(RenameStage::UnlinkSource), Request::Unlink { slot: 0, dir, name })
                        },
                        Err(e) => Step::Finish(
                            err(kind_from(e), cat2("Failed to create link at destination: ", e.name())),
                        ),
                    },
                    RenameStage::UnlinkSource => match outcome {
                        Ok(()) => Step::Finish(Ok(())),
                        Err(e) => {
                            let error = Error::new(kind_from(e), cat2("Failed to unlink source: ", e.name()));
                            let dir = self.to_parent_id;
                            let name = copy_string(&self.to_name);
                            Step::Call(
                                self.at(RenameStage::Cleanup { error }),
                                Request::Unlink { slot: 1, dir, name },
                            )
                        },
                    },
                    RenameStage::Cleanup { error } => Step::Finish(Err(error)),
                    _ => {
                        assert(false);
                        Step::Finish(Ok(()))
                    },
                }
            },
            _ => {
                assert(false);
                Step::Finish(Ok(()))
            },
        }
    }
}

/// Renames the file `from` to `to`, replacing what `to` names unless it is
/// a directory: fails at once when either path has no parent or no file
/// name, else asks for the resolution of the source's parent.
pub fn rename(from: Path<'_>, to: Path<'_>) -> (s: Step<RenameOp, ()>)
    ensures
        match (spec_parent(from@), spec_file_name(from@)) {
            (Some(fp), Some(fname)) => match (spec_parent(to@), spec_file_name(to@)) {
                (Some(tp), Some(tname)) => s matches Step::Call(m, Request::Resolve { path, slot })
                    && path@ == fp && slot == 0 && m.stage() == RenameStage::ResolveFrom && m.from()
                    == from@ && m.to() == to@ && m.from_parent() == fp && m.from_name() == fname
                    && m.to_parent() == tp && m.to_name() == tname && m.wf(),
                _ => finishes_err(s, ErrorKind::Other, "Cannot rename to root"@),
            },
            _ => finishes_err(s, ErrorKind::Other, "Cannot rename root"@),
        },
{
    let (fp, fname) = match (from.parent(), from.file_name()) {
        (Some(p), Some(n)) => (p, n),
        _ => return Step::Finish(err(ErrorKind::Other, text("Cannot rename root"))),
    };
    let (tp, tname) = match (to.parent(), to.file_name()) {
        (Some(p), Some(n)) => (p, n),
        _ => return Step::Finish(err(ErrorKind::Other, text("Cannot rename to root"))),
    };
    let op = RenameOp {
        from: PathBuf::from_path(from),
        to: PathBuf::from_path(to),
        from_parent: PathBuf::from_path(fp),
        from_name: text(fname),
        to_parent: PathBuf::from_path(tp),
        to_name: text(tname),
        from_parent_id: InodeId(0, 0),
        source: InodeId(0, 0),
        source_kind: Kind::Unknown,
        to_parent_id: InodeId(0, 0),
        stage: RenameStage::ResolveFrom,
    };
    Step::Call(op, Request::Resolve { path: PathBuf::from_path(fp).into_string(), slot: 0 })
}

} // verus!
