//! Canonical paths with symbolic links resolved.
//!
//! The path is first put in canonical form (see `Path::canonicalize`).
//! Then its segments are looked up one by one from its root; a segment that
//! is a symbolic link is replaced by the link's target and the walk starts
//! over on the path that gives. A segment that cannot be looked up ends the
//! walk: what is left of the path is kept as it stands.

use vstd::prelude::*;
use crate::api::fs::ops::{kind_of, Reply, ReplyKind, Request, Step};
use crate::api::fs::query::copy_string;
use crate::api::fs::read::{fit, fitted};
use crate::api::path::{
    canonical_parts, canonical_predicate, canonical_string, canonical_text, normalize, pwd_view,
    segments, slash_join, spec_full_path, spec_push, string_views, Path, PathBuf,
};
use crate::raw::vfs::{InodeId, Kind};
use crate::text::{decoded, lossy_string};

verus! {

/// How many symbolic links one canonicalisation follows at most; a link met
/// past that is left as it stands.
pub const LINK_LIMIT: usize = 40;

/// Where the resolution of links stands.
#[derive(Debug, Clone, Copy, PartialEq, Eq, Structural)]
pub enum CanonStage {
    /// Waiting for the resolution of the root.
    ResolveRoot,
    /// Waiting for the next segment to be looked up.
    Lookup,
    /// Waiting for the attributes of the entry found.
    Stat,
    /// Waiting for the target of a link.
    ReadLink,
}

/// The path a link with target `t`, met at segment `done`, leads to: the
/// target pushed on the segments before it, then the segments after it.
pub open spec fn link_text(pred: Seq<char>, segs: Seq<Seq<char>>, done: int, t: Seq<char>) -> Seq<char> {
    spec_push(canonical_text(pred, segs.take(done)), t) + slash_join(segs.skip(done + 1))
}

/// The canonical form of `path`, with links resolved.
pub struct CanonicalizeOp {
    path: PathBuf,
    pred: String,
    segs: Vec<String>,
    done: usize,
    entry: InodeId,
    len: usize,
    hops: usize,
    stage: CanonStage,
}

/// How the walk starts on `text`, with `hops` links followed: the canonical
/// form of `text` (with `root` for a missing predicate and `pwd` for the
/// working directory) is the result when it is a root, else its root is
/// resolved.
pub open spec fn restarts(
    s: Step<CanonicalizeOp, PathBuf>,
    path: Seq<char>,
    text: Seq<char>,
    root: Seq<char>,
    pwd: Seq<char>,
    hops: int,
) -> bool {
    let pred = canonical_predicate(text, root);
    let segs = normalize(segments(spec_full_path(text, pwd)));
    if segs.len() == 0 {
        s matches Step::Finish(Ok(b)) && b@ == canonical_text(pred, segs)
    } else {
        s matches Step::Call(m, Request::Resolve { path: q, slot }) && q@ == canonical_text(
            pred,
            Seq::empty(),
        ) && slot == 0 && m.path() == path && m.pred() == pred && m.segs() == segs && m.done()
            == 0 && m.hops() == hops && m.stage() == CanonStage::ResolveRoot && m.wf()
    }
}

impl CanonicalizeOp {
    /// The path asked for.
    pub closed spec fn path(&self) -> Seq<char> {
        self.path@
    }

    /// The predicate of the current canonical form.
    pub closed spec fn pred(&self) -> Seq<char> {
        self.pred@
    }

    /// The segments of the current canonical form.
    pub closed spec fn segs(&self) -> Seq<Seq<char>> {
        string_views(self.segs@)
    }

    /// How many segments are looked up and are no links.
    pub closed spec fn done(&self) -> int {
        self.done as int
    }

    /// The entry found for the next segment (meaningful once found).
    pub closed spec fn entry(&self) -> InodeId {
        self.entry
    }

    /// The size of the link read (meaningful once stat'ed).
    pub closed spec fn length(&self) -> usize {
        self.len
    }

    /// How many links were followed.
    pub closed spec fn hops(&self) -> int {
        self.hops as int
    }

    /// Where the walk stands.
    pub closed spec fn stage(&self) -> CanonStage {
        self.stage
    }

    /// A segment is left to look up, and the links followed are within the
    /// limit.
    pub open spec fn wf(&self) -> bool {
        &&& 0 <= self.done() < self.segs().len()
        &&& self.hops() <= LINK_LIMIT
    }

    /// `self` walks the same canonical form as `other`.
    pub open spec fn keeps(&self, other: &CanonicalizeOp) -> bool {
        &&& self.path() == other.path()
        &&& self.pred() == other.pred()
        &&& self.segs() == other.segs()
        &&& self.hops() == other.hops()
    }

    /// The current canonical form, as it stands.
    pub open spec fn text(&self) -> Seq<char> {
        canonical_text(self.pred(), self.segs())
    }

    /// What follows once the segment under way is found to be no link: the
    /// walk ends with the current form after the last segment, else the next
    /// segment is looked up in the entry found.
    pub open spec fn advances(&self, s: Step<CanonicalizeOp, PathBuf>) -> bool {
        if self.done() + 1 == self.segs().len() {
            s matches Step::Finish(Ok(b)) && b@ == self.text()
        } else {
            s matches Step::Call(m, Request::Lookup { slot, dir, name }) && slot == 0 && dir
                == self.entry() && name@ == self.segs()[self.done() + 1] && m.stage()
                == CanonStage::Lookup && m.done() == self.done() + 1 && m.keeps(self) && m.wf()
        }
    }

    /// The reply the walk waits for.
    pub open spec fn spec_awaits(&self) -> ReplyKind {
        match self.stage() {
            CanonStage::ResolveRoot => ReplyKind::Resolved,
            CanonStage::Lookup => ReplyKind::Found,
            CanonStage::Stat => ReplyKind::Stat,
            CanonStage::ReadLink => ReplyKind::Data,
        }
    }

    /// The reply the walk waits for.
    pub fn awaits(&self) -> (k: ReplyKind)
        ensures
            k == self.spec_awaits(),
    {
        match self.stage {
            CanonStage::ResolveRoot => ReplyKind::Resolved,
            CanonStage::Lookup => ReplyKind::Found,
            CanonStage::Stat => ReplyKind::Stat,
            CanonStage::ReadLink => ReplyKind::Data,
        }
    }

    /// The current form, as it stands.
    fn finish(&self) -> (s: Step<CanonicalizeOp, PathBuf>)
        ensures
            s matches Step::Finish(Ok(b)) && b@ == self.text(),
    {
        Step::Finish(Ok(PathBuf::from_string(canonical_string(self.pred.as_str(), &self.segs))))
    }

    /// Looks the segment `done` up in `dir`.
    fn look_up(self, done: usize, dir: InodeId) -> (s: Step<CanonicalizeOp, PathBuf>)
        requires
            done < self.segs().len(),
            self.hops() <= LINK_LIMIT,
        ensures
            s matches Step::Call(m, Request::Lookup { slot, dir: d, name }) && slot == 0 && d == dir
                && name@ == self.segs()[done as int] && m.stage() == CanonStage::Lookup && m.done()
                == done && m.keeps(&self) && m.wf(),
    {
        let name = copy_string(&self.segs[done]);
        Step::Call(CanonicalizeOp { done, stage: CanonStage::Lookup, ..self }, Request::Lookup { slot: 0, dir, name })
    }

    /// Starts the walk on `text`, with `hops` links followed.
    fn restart(path: PathBuf, text: &str, root: &str, pwd: Option<&str>, hops: usize) -> (s: Step<
        CanonicalizeOp,
        PathBuf,
    >)
        requires
            hops <= LINK_LIMIT,
        ensures
            restarts(s, path@, text@, root@, pwd_view(pwd), hops as int),
    {
        let (pred, segs) = canonical_parts(text, root, pwd);
        if segs.len() == 0 {
            Step::Finish(Ok(PathBuf::from_string(canonical_string(pred.as_str(), &segs))))
        } else {
            let none: Vec<String> = Vec::new();
            assert(string_views(none@) =~= Seq::<Seq<char>>::empty());
            let q = canonical_string(pred.as_str(), &none);
            let op = CanonicalizeOp {
                path,
                pred,
                segs,
                done: 0,
                entry: InodeId(0, 0),
                len: 0,
                hops,
                stage: CanonStage::ResolveRoot,
            };
            Step::Call(op, Request::Resolve { path: q, slot: 0 })
        }
    }

    /// The text of the path a link with target `t` leads to.
    fn link_path(&self, t: &str) -> (r: String)
        requires
            self.done() < self.segs().len(),
        ensures
            r@ == link_text(self.pred(), self.segs(), self.done(), t@),
    {
        let ghost view = self.segs();
        let n = self.segs.len();
        assert(view.len() == n);
        let mut before: Vec<String> = Vec::new();
        let mut i: usize = 0;
        while i < self.done
            invariant
                i <= self.done,
                self.done < self.segs@.len(),
                view == string_views(self.segs@),
                string_views(before@) == view.take(i as int),
            decreases self.done - i,
        {
            let g = copy_string(&self.segs[i]);
            let ghost old_before = before@;
            before.push(g);
            proof {
                assert(string_views(before@) =~= string_views(old_before).push(g@));
                assert(view.take(i + 1) =~= view.take(i as int).push(view[i as int]));
            }
            i = i + 1;
        }
        let mut base = PathBuf::from_string(canonical_string(self.pred.as_str(), &before));
        base.push(Path::new(t));
        let mut out = base.into_string();
        let ghost head = out@;
        let ghost rest = view.skip(self.done + 1);
        assert(rest.take(0) =~= Seq::<Seq<char>>::empty());
        let mut j: usize = self.done + 1;
        while j < self.segs.len()
            invariant
                self.done + 1 <= j <= self.segs@.len(),
                view == string_views(self.segs@),
                rest == view.skip(self.done + 1),
                out@ == head + slash_join(rest.take(j - self.done - 1)),
            decreases self.segs@.len() - j,
        {
            proof {
                reveal_strlit("/");
            }
            out.append("/");
            out.append(self.segs[j].as_str());
            proof {
                let k = j - self.done - 1;
                let t2 = rest.take(k + 1);
                assert(t2.drop_last() =~= rest.take(k));
                assert(t2.last() == view[j as int]);
                assert(out@ =~= head + slash_join(t2));
            }
            j = j + 1;
        }
        assert(rest.take(self.segs@.len() - self.done - 1) =~= rest);
        out
    }

    /// Takes the kernel's reply. The root is resolved and the segments
    /// looked up in turn; an entry that is a symbolic link is read and the
    /// walk starts over on the path its target gives; once every segment is
    /// found and none is a link, the form is the result. A failure of the
    /// kernel on the way, or a link met once `LINK_LIMIT` links were
    /// followed, ends the walk with the form as it stands: the walk never
    /// fails.
    pub fn resume(self, reply: Reply) -> (s: Step<CanonicalizeOp, PathBuf>)
        requires
            kind_of(reply) == self.spec_awaits(),
            self.wf(),
        ensures
            s matches Step::Call(m, _) ==> m.wf(),
            !(s matches Step::Finish(Err(_))),
            match (self.stage(), reply) {
                (CanonStage::ResolveRoot, Reply::Resolved(Ok(id))) => s matches Step::Call(
                    m,
                    Request::Lookup { slot, dir, name },
                ) && slot == 0 && dir == id && name@ == self.segs()[0] && m.stage()
                    == CanonStage::Lookup && m.done() == 0 && m.keeps(&self),
                (CanonStage::Lookup, Reply::Found(Some(id))) => s matches Step::Call(
                    m,
                    Request::Stat { slot, id: i },
                ) && slot == 0 && i == id && m.stage() == CanonStage::Stat && m.entry() == id
                    && m.done() == self.done() && m.keeps(&self),
                (CanonStage::Stat, Reply::Stat(Some(inode))) => if inode.kind == Kind::SymLink {
                    s matches Step::Call(m, Request::ReadLink { slot, id, len }) && slot == 0 && id
                        == self.entry() && len == inode.size as usize && m.stage()
                        == CanonStage::ReadLink && m.length() == inode.size as usize && m.done()
                        == self.done() && m.keeps(&self)
                } else {
                    self.advances(s)
                },
                (CanonStage::Stat, Reply::Stat(None)) => self.advances(s),
                (CanonStage::ReadLink, Reply::Data(Ok(buf))) => {
                    let t = decoded(fitted(buf@, self.length() as int));
                    if self.hops() >= LINK_LIMIT {
                        s matches Step::Finish(Ok(b)) && b@ == self.text()
                    } else {
                        restarts(
                            s,
                            self.path(),
                            link_text(self.pred(), self.segs(), self.done(), t),
                            self.pred(),
                            Seq::empty(),
                            self.hops() + 1,
                        )
                    }
                },
                (CanonStage::ResolveRoot, Reply::Resolved(Err(_)))
                | (CanonStage::Lookup, Reply::Found(None))
                | (CanonStage::ReadLink, Reply::Data(Err(_))) => s matches Step::Finish(Ok(b)) && b@
                    == self.text(),
                _ => false,
            },
    {
        let n = self.segs.len();
        assert(self.segs().len() == n);
        match reply {
            Reply::Resolved(Ok(id)) => self.look_up(0, id),
            Reply::Found(Some(id)) => Step::Call(
                CanonicalizeOp { entry: id, stage: CanonStage::Stat, ..self },
                Request::Stat { slot: 0, id },
            ),
            Reply::Stat(Some(inode)) => {
                if inode.kind == Kind::SymLink {
                    let id = self.entry;
                    let len = inode.size as usize;
                    Step::Call(
                        CanonicalizeOp { len, stage: CanonStage::ReadLink, ..self },
                        Request::ReadLink { slot: 0, id, len },
                    )
                } else if self.done + 1 == n {
                    self.finish()
                } else {
                    let next = self.done + 1;
                    let dir = self.entry;
                    self.look_up(next, dir)
                }
            },
            Reply::Stat(None) => {
                if self.done + 1 == n {
                    self.finish()
                } else {
                    let next = self.done + 1;
                    let dir = self.entry;
                    self.look_up(next, dir)
                }
            },
            Reply::Data(Ok(buf)) => {
                if self.hops >= LINK_LIMIT {
                    self.finish()
                } else {
                    let t = lossy_string(fit(buf, self.len).as_slice());
                    let text = self.link_path(t.as_str());
                    let pred = copy_string(&self.pred);
                    let hops = self.hops + 1;
                    proof {
                        reveal_strlit("");
                    }
                    Self::restart(self.path, text.as_str(), pred.as_str(), None, hops)
                }
            },
            Reply::Resolved(Err(_)) | Reply::Found(None) | Reply::Data(Err(_)) => self.finish(),
            _ => {
                assert(false);
                self.finish()
            },
        }
    }
}

/// The canonical, absolute form of `path` with symbolic links resolved,
/// with `root` the predicate of the task's root and `pwd` its working
/// directory: starts the walk on the canonical form of `path`.
pub fn canonicalize(path: Path<'_>, root: &str, pwd: Option<&str>) -> (s: Step<CanonicalizeOp, PathBuf>)
    ensures
        restarts(s, path@, path@, root@, pwd_view(pwd), 0),
{
    CanonicalizeOp::restart(PathBuf::from_path(path), path.as_str(), root, pwd, 0)
}

} // verus!
