use kstd::api::fs::canon::CanonicalizeOp;
use kstd::api::fs::dent::ReadDir;
use kstd::api::fs::meta::Metadata;
use kstd::api::fs::query::{ExistsOp, MetadataOp, SymlinkMetadataOp, TimeOp};
use kstd::api::fs::read::{ReadDirOp, ReadLinkOp, ReadOp, ReadToStringOp};
use kstd::api::fs::remove::{RemoveAllOp, RemoveOp};
use kstd::api::fs::rename::RenameOp;
use kstd::api::fs::write::{CreateDirAllOp, CreateDirOp, WriteOp};
use kstd::api::fs::{self as fs, Reply, Request, Step};
use kstd::api::path::{Path, PathBuf};
use kstd::io::{Error, ErrorKind};
use kstd::raw::vfs::{FsError, Inode, InodeFlags, InodeId, Kind};

// ---------------------------------------------------------------------------
// A small in-memory kernel
// ---------------------------------------------------------------------------

struct Node {
    id: InodeId,
    kind: Kind,
    data: Vec<u8>,
}

struct Kernel {
    nodes: Vec<Node>,
    entries: Vec<(InodeId, String, InodeId)>,
    log: Vec<String>,
    fail_unlink_of: Option<String>,
    created: Vec<(InodeId, Kind)>,
    next: u32,
}

const ROOT: InodeId = InodeId(1, 0);

impl Kernel {
    fn new() -> Kernel {
        Kernel {
            nodes: vec![Node { id: ROOT, kind: Kind::Directory, data: Vec::new() }],
            entries: Vec::new(),
            log: Vec::new(),
            fail_unlink_of: None,
            created: Vec::new(),
            next: 2,
        }
    }

    fn add(&mut self, parent: InodeId, name: &str, kind: Kind, data: &[u8]) -> InodeId {
        let id = InodeId(self.next, 0);
        self.next += 1;
        self.nodes.push(Node { id, kind, data: data.to_vec() });
        self.entries.push((parent, name.to_string(), id));
        id
    }

    fn lookup(&self, dir: InodeId, name: &str) -> Option<InodeId> {
        self.entries.iter().find(|(d, n, _)| *d == dir && n == name).map(|e| e.2)
    }

    fn resolve(&self, path: &str) -> Result<InodeId, FsError> {
        let path = match path.find(':') {
            Some(i) => &path[i + 1..],
            None => path,
        };
        let mut at = ROOT;
        for part in path.split('/').filter(|s| !s.is_empty()) {
            at = self.lookup(at, part).ok_or(FsError::NoEntry)?;
        }
        Ok(at)
    }

    fn node(&self, id: InodeId) -> Option<&Node> {
        self.nodes.iter().find(|n| n.id == id)
    }

    fn stat(&self, id: InodeId) -> Option<Inode> {
        self.node(id).map(|n| {
            let mut i = Inode::new();
            i.id = n.id;
            i.kind = n.kind;
            i.size = n.data.len() as u64;
            i.atime = 10;
            i.mtime = 20;
            i.ctime = 30;
            i
        })
    }

    fn answer(&mut self, q: &Request) -> Reply {
        match q {
            Request::Resolve { path, slot } => {
                self.log.push(format!("resolve {} {}", path, slot));
                Reply::Resolved(self.resolve(path))
            },
            Request::Stat { id, .. } => {
                self.log.push(format!("stat {}", id.0));
                Reply::Stat(self.stat(*id))
            },
            Request::Lookup { dir, name, .. } => {
                self.log.push(format!("lookup {} {}", dir.0, name));
                Reply::Found(self.lookup(*dir, name))
            },
            Request::New { inode, kind, .. } => {
                self.log.push(format!("new {}", inode.id.0));
                self.created.push((inode.id, *kind));
                let id = InodeId(self.next, 0);
                self.next += 1;
                self.nodes.push(Node { id, kind: *kind, data: Vec::new() });
                Reply::Created(Ok(id))
            },
            Request::Truncate { id, len, .. } => {
                self.log.push(format!("truncate {} {}", id.0, len));
                match self.nodes.iter_mut().find(|n| n.id == *id) {
                    Some(n) => {
                        n.data.resize(*len, 0);
                        Reply::Done(Ok(()))
                    },
                    None => Reply::Done(Err(FsError::NoEntry)),
                }
            },
            Request::Read { id, len, .. } | Request::ReadLink { id, len, .. } => {
                self.log.push(format!("read {} {}", id.0, len));
                match self.node(*id) {
                    Some(n) => {
                        let mut buf = vec![0u8; *len];
                        let k = n.data.len().min(*len);
                        buf[..k].copy_from_slice(&n.data[..k]);
                        Reply::Data(Ok(buf))
                    },
                    None => Reply::Data(Err(FsError::NoEntry)),
                }
            },
            Request::Write { id, data, .. } => {
                self.log.push(format!("write {} {}", id.0, data.len()));
                match self.nodes.iter_mut().find(|n| n.id == *id) {
                    Some(n) => {
                        n.data = data.clone();
                        Reply::Done(Ok(()))
                    },
                    None => Reply::Done(Err(FsError::NoEntry)),
                }
            },
            Request::ListDir { dir, .. } => {
                self.log.push(format!("list {}", dir.0));
                let mut l: Vec<(String, InodeId)> =
                    self.entries.iter().filter(|e| e.0 == *dir).map(|e| (e.1.clone(), e.2)).collect();
                l.sort_by(|a, b| a.0.cmp(&b.0));
                Reply::Listing(l)
            },
            Request::Unlink { dir, name, slot } => {
                self.log.push(format!("unlink {} {} {}", slot, dir.0, name));
                if self.fail_unlink_of.as_deref() == Some(name.as_str()) {
                    return Reply::Done(Err(FsError::NotEmpty));
                }
                let before = self.entries.len();
                self.entries.retain(|e| !(e.0 == *dir && e.1 == *name));
                if self.entries.len() < before {
                    Reply::Done(Ok(()))
                } else {
                    Reply::Done(Err(FsError::NoEntry))
                }
            },
            Request::Link { parent, name, child, .. } => {
                self.log.push(format!("link {} {} {}", parent.0, name, child.0));
                if self.lookup(*parent, name).is_some() {
                    return Reply::Done(Err(FsError::AlreadyExists));
                }
                self.entries.push((*parent, name.clone(), *child));
                Reply::Done(Ok(()))
            },
        }
    }
}

trait Machine: Sized {
    type Out;
    fn feed(self, r: Reply) -> Step<Self, Self::Out>;
}

impl Machine for CanonicalizeOp {
    type Out = PathBuf;
    fn feed(self, r: Reply) -> Step<Self, PathBuf> {
        self.resume(r)
    }
}

impl Machine for ExistsOp {
    type Out = bool;
    fn feed(self, r: Reply) -> Step<Self, bool> {
        self.resume(r)
    }
}

impl Machine for MetadataOp {
    type Out = Metadata;
    fn feed(self, r: Reply) -> Step<Self, Metadata> {
        self.resume(r)
    }
}

impl Machine for TimeOp {
    type Out = u64;
    fn feed(self, r: Reply) -> Step<Self, u64> {
        self.resume(r)
    }
}

impl Machine for SymlinkMetadataOp {
    type Out = Metadata;
    fn feed(self, r: Reply) -> Step<Self, Metadata> {
        self.resume(r)
    }
}

impl Machine for ReadOp {
    type Out = Vec<u8>;
    fn feed(self, r: Reply) -> Step<Self, Vec<u8>> {
        self.resume(r)
    }
}

impl Machine for ReadToStringOp {
    type Out = String;
    fn feed(self, r: Reply) -> Step<Self, String> {
        self.resume(r)
    }
}

impl Machine for ReadLinkOp {
    type Out = PathBuf;
    fn feed(self, r: Reply) -> Step<Self, PathBuf> {
        self.resume(r)
    }
}

impl Machine for ReadDirOp {
    type Out = ReadDir;
    fn feed(self, r: Reply) -> Step<Self, ReadDir> {
        self.resume(r)
    }
}

impl Machine for WriteOp {
    type Out = ();
    fn feed(self, r: Reply) -> Step<Self, ()> {
        self.resume(r)
    }
}

impl Machine for CreateDirOp {
    type Out = ();
    fn feed(self, r: Reply) -> Step<Self, ()> {
        self.resume(r)
    }
}

impl Machine for CreateDirAllOp {
    type Out = ();
    fn feed(self, r: Reply) -> Step<Self, ()> {
        self.resume(r)
    }
}

impl Machine for RemoveOp {
    type Out = ();
    fn feed(self, r: Reply) -> Step<Self, ()> {
        self.resume(r)
    }
}

impl Machine for RemoveAllOp {
    type Out = ();
    fn feed(self, r: Reply) -> Step<Self, ()> {
        self.resume(r)
    }
}

impl Machine for RenameOp {
    type Out = ();
    fn feed(self, r: Reply) -> Step<Self, ()> {
        self.resume(r)
    }
}

fn run<M: Machine>(k: &mut Kernel, mut s: Step<M, M::Out>) -> Result<M::Out, Error> {
    loop {
        match s {
            Step::Finish(r) => return r,
            Step::Call(m, q) => {
                let r = k.answer(&q);
                s = m.feed(r);
            },
        }
    }
}

fn fails<T>(r: Result<T, Error>, kind: ErrorKind, message: &str) {
    match r {
        Ok(_) => panic!("expected an error"),
        Err(e) => {
            assert_eq!(e.kind(), kind);
            assert_eq!(e.message(), message);
        },
    }
}

/// `/docs/a.txt` (file "hello"), `/docs/link` (symlink to "/docs/a.txt"),
/// `/empty` (directory), `/tree/x/y.txt`, `/tree/z.txt`.
fn sample() -> Kernel {
    let mut k = Kernel::new();
    let docs = k.add(ROOT, "docs", Kind::Directory, b"");
    k.add(docs, "a.txt", Kind::File, b"hello");
    k.add(docs, "link", Kind::SymLink, b"/docs/a.txt");
    k.add(ROOT, "empty", Kind::Directory, b"");
    let tree = k.add(ROOT, "tree", Kind::Directory, b"");
    let x = k.add(tree, "x", Kind::Directory, b"");
    k.add(x, "y.txt", Kind::File, b"y");
    k.add(tree, "z.txt", Kind::File, b"z");
    k
}

// ---------------------------------------------------------------------------
// Queries
// ---------------------------------------------------------------------------

#[test]
fn exists_answers() {
    let mut k = sample();
    assert_eq!(run(&mut k, fs::path_exists(Path::new("/docs/a.txt"))).ok(), Some(true));
    assert_eq!(run(&mut k, fs::path_exists(Path::new("/docs/none"))).ok(), Some(false));
    let s = fs::path_exists(Path::new("/x"));
    match s {
        Step::Call(op, _) => fails(
            match op.resume(Reply::Resolved(Err(FsError::NotMounted))) {
                Step::Finish(r) => r,
                Step::Call(..) => panic!("expected the end"),
            },
            ErrorKind::NotConnected,
            "Error: NotMounted",
        ),
        Step::Finish(_) => panic!("expected a call"),
    }
}

#[test]
fn metadata_and_times() {
    let mut k = sample();
    let md = run(&mut k, fs::metadata(Path::new("/docs/a.txt"))).ok().unwrap();
    assert!(md.is_file());
    assert!(!md.is_dir());
    assert_eq!(md.len(), 5);
    assert_eq!(run(&mut k, fs::accessed(Path::new("/docs/a.txt"))).ok(), Some(10));
    assert_eq!(run(&mut k, fs::modified(Path::new("/docs/a.txt"))).ok(), Some(20));
    assert_eq!(run(&mut k, fs::created(Path::new("/docs/a.txt"))).ok(), Some(30));
    fails(run(&mut k, fs::metadata(Path::new("/nope"))), ErrorKind::NotFound, "Error: NoEntry");
}

#[test]
fn read_only_means_no_write_bit() {
    let perm = |flags: InodeFlags| {
        let op = match fs::metadata(Path::new("/f")) {
            Step::Call(op, _) => op,
            _ => panic!(),
        };
        let op = match op.resume(Reply::Resolved(Ok(InodeId(3, 0)))) {
            Step::Call(op, _) => op,
            _ => panic!(),
        };
        let mut i = Inode::new();
        i.flags = flags;
        match op.resume(Reply::Stat(Some(i))) {
            Step::Finish(Ok(md)) => md.permissions().readonly(),
            _ => panic!(),
        }
    };
    assert!(!perm(InodeFlags::USER_READ() | InodeFlags::USER_WRITE()));
    assert!(perm(InodeFlags::USER_READ() | InodeFlags::GROUP_READ()));
    assert!(!perm(InodeFlags::OTHER_WRITE()));
    assert!(perm(InodeFlags::from_raw(0)));
}

#[test]
fn metadata_without_stat() {
    let s = fs::metadata(Path::new("/gone"));
    let op = match s {
        Step::Call(op, _) => op,
        Step::Finish(_) => panic!("expected a call"),
    };
    let op = match op.resume(Reply::Resolved(Ok(InodeId(7, 0)))) {
        Step::Call(op, Request::Stat { id, slot }) => {
            assert_eq!(id, InodeId(7, 0));
            assert_eq!(slot, 0);
            op
        },
        _ => panic!("expected a stat"),
    };
    match op.resume(Reply::Stat(None)) {
        Step::Finish(r) => fails(r, ErrorKind::Other, "Can't stat `/gone`"),
        Step::Call(..) => panic!("expected the end"),
    }
}

#[test]
fn symlink_metadata_does_not_follow() {
    let mut k = sample();
    let md = run(&mut k, fs::symlink_metadata(Path::new("/docs/link"))).ok().unwrap();
    assert!(md.is_symlink());
    assert_eq!(k.log, vec!["resolve /docs 0", "lookup 2 link", "stat 4"]);
    fails(run(&mut k, fs::symlink_metadata(Path::new("/docs/none"))), ErrorKind::NotFound, "`/docs/none` not found");
    fails(
        run(&mut k, fs::symlink_metadata(Path::new("/nodir/x"))),
        ErrorKind::NotFound,
        "Can't resolve parent `/nodir`: NoEntry",
    );
    // Without a file name the query is that of `metadata`.
    let md = run(&mut k, fs::symlink_metadata(Path::new("/"))).ok().unwrap();
    assert!(md.is_dir());
}

// ---------------------------------------------------------------------------
// Reading
// ---------------------------------------------------------------------------

#[test]
fn read_whole_file() {
    let mut k = sample();
    assert_eq!(run(&mut k, fs::read(Path::new("/docs/a.txt"))).ok(), Some(b"hello".to_vec()));
    assert_eq!(k.log, vec!["resolve /docs/a.txt 0", "stat 3", "read 3 5"]);
    assert_eq!(run(&mut k, fs::read_to_string(Path::new("/docs/a.txt"))).ok(), Some("hello".to_string()));
}

#[test]
fn read_errors() {
    let mut k = sample();
    fails(run(&mut k, fs::read(Path::new("/docs"))), ErrorKind::IsADirectory, "Can't read `/docs`: Not a file");
    fails(run(&mut k, fs::read(Path::new("/nope"))), ErrorKind::NotFound, "Can't resolve `/nope`: NoEntry");
    let op = match fs::read(Path::new("/f")) {
        Step::Call(op, _) => op,
        _ => panic!(),
    };
    let op = match op.resume(Reply::Resolved(Ok(InodeId(9, 0)))) {
        Step::Call(op, _) => op,
        _ => panic!(),
    };
    let mut i = Inode::new();
    i.kind = Kind::File;
    i.size = 4;
    let op = match op.resume(Reply::Stat(Some(i))) {
        Step::Call(op, Request::Read { id, len, .. }) => {
            assert_eq!(id, InodeId(9, 0));
            assert_eq!(len, 4);
            op
        },
        _ => panic!("expected a read"),
    };
    match op.resume(Reply::Data(Err(FsError::OutOfBounds))) {
        Step::Finish(r) => fails(r, ErrorKind::InvalidInput, "Failed to read `/f`: OutOfBounds"),
        _ => panic!(),
    }
}

#[test]
fn read_to_string_replaces_invalid_utf8() {
    let mut k = Kernel::new();
    k.add(ROOT, "bin", Kind::File, &[b'a', 0xff, b'b']);
    assert_eq!(run(&mut k, fs::read_to_string(Path::new("/bin"))).ok(), Some("a\u{FFFD}b".to_string()));
    k.add(ROOT, "bin2", Kind::File, &[b'a', 0xff, 0xff, b'b']);
    assert_eq!(run(&mut k, fs::read_to_string(Path::new("/bin2"))).ok(), Some("a\u{FFFD}\u{FFFD}b".to_string()));
}

#[test]
fn read_link_target() {
    let mut k = sample();
    let t = run(&mut k, fs::read_link(Path::new("/docs/link"))).ok().unwrap();
    assert_eq!(t.as_str(), "/docs/a.txt");
    // The link is looked up in its directory, not followed.
    assert_eq!(k.log, vec!["resolve /docs 0", "lookup 2 link", "stat 4", "read 4 11"]);
    fails(run(&mut k, fs::read_link(Path::new("/docs/none"))), ErrorKind::NotFound, "`/docs/none` not found");
    fails(
        run(&mut k, fs::read_link(Path::new("/docs/a.txt"))),
        ErrorKind::IsADirectory,
        "Can't read symlink `/docs/a.txt`: Not a symlink",
    );
}

#[test]
fn read_dir_listing() {
    let mut k = sample();
    let rd = run(&mut k, fs::read_dir(Path::new("/docs"))).ok().unwrap();
    assert_eq!(rd.position(), (InodeId(2, 0), 0));
    fails(
        run(&mut k, fs::read_dir(Path::new("/docs/a.txt"))),
        ErrorKind::NotADirectory,
        "Can't read dir `/docs/a.txt`: Not a directory",
    );
    let mut rd = rd;
    let e = rd.advance(Some(("a.txt".to_string(), InodeId(3, 0))));
    assert_eq!(rd.position(), (InodeId(2, 0), 1));
    let (name, id) = e.unwrap();
    let entry = rd.entry(&name, k.stat(id)).unwrap();
    assert_eq!(entry.path().as_str(), "/docs/a.txt");
    assert_eq!(entry.file_name(), "a.txt");
    assert!(entry.file_type().ok().unwrap().is_file());
    assert!(rd.advance(None).is_none());
    assert_eq!(rd.position(), (InodeId(2, 0), 1));
    assert!(rd.entry("gone", None).is_none());
}

// ---------------------------------------------------------------------------
// Writing and creating
// ---------------------------------------------------------------------------

#[test]
fn write_then_read_back() {
    let mut k = sample();
    assert!(run(&mut k, fs::write::write(Path::new("/docs/a.txt"), b"new text")).is_ok());
    assert_eq!(run(&mut k, fs::read(Path::new("/docs/a.txt"))).ok(), Some(b"new text".to_vec()));
    // A shorter write leaves nothing of the old contents behind.
    assert!(run(&mut k, fs::write::write(Path::new("/docs/a.txt"), b"ab")).is_ok());
    assert_eq!(run(&mut k, fs::read(Path::new("/docs/a.txt"))).ok(), Some(b"ab".to_vec()));
    assert!(k.log.contains(&"truncate 3 2".to_string()));
    fails(
        run(&mut k, fs::write::write(Path::new("/docs"), b"x")),
        ErrorKind::IsADirectory,
        "Can't write `/docs`: Not a file",
    );
}

#[test]
fn create_dir_under_directory() {
    let mut k = sample();
    assert!(run(&mut k, fs::create_dir(Path::new("/docs/new"))).is_ok());
    assert_eq!(k.created, vec![(InodeId(2, 0), Kind::Directory)]);
    assert_eq!(k.log, vec!["resolve /docs 0", "stat 2", "new 2", "link 2 new 10"]);
    let md = run(&mut k, fs::metadata(Path::new("/docs/new"))).ok().unwrap();
    assert!(md.is_dir());
    // A path without a file name: the directory is made and not linked.
    k.log.clear();
    assert!(run(&mut k, fs::create_dir(Path::new("/docs/.."))).is_ok());
    assert_eq!(k.log, vec!["resolve /docs 0", "stat 2", "new 2"]);
    fails(run(&mut k, fs::create_dir(Path::new("/"))), ErrorKind::NotFound, "Attempt to create root");
    fails(
        run(&mut k, fs::create_dir(Path::new("/docs/a.txt/x"))),
        ErrorKind::NotADirectory,
        "`/docs/a.txt` is not a directory",
    );
    fails(run(&mut k, fs::create_dir(Path::new("/no/x"))), ErrorKind::NotFound, "Can't resolve `/no`: NoEntry");
}

#[test]
fn create_dir_failures_from_kernel() {
    let op = match fs::create_dir(Path::new("/d/e")) {
        Step::Call(op, Request::Resolve { path, .. }) => {
            assert_eq!(path, "/d");
            op
        },
        _ => panic!(),
    };
    let op = match op.resume(Reply::Resolved(Ok(InodeId(5, 0)))) {
        Step::Call(op, _) => op,
        _ => panic!(),
    };
    match op.resume(Reply::Stat(None)) {
        Step::Finish(r) => fails(r, ErrorKind::Other, "Can't stat `/d`"),
        _ => panic!(),
    }
    let op = match fs::create_dir(Path::new("/d/e")) {
        Step::Call(op, _) => op,
        _ => panic!(),
    };
    let op = match op.resume(Reply::Resolved(Ok(InodeId(5, 0)))) {
        Step::Call(op, _) => op,
        _ => panic!(),
    };
    let mut dir = Inode::new();
    dir.kind = Kind::Directory;
    let op = match op.resume(Reply::Stat(Some(dir))) {
        Step::Call(op, Request::New { kind, .. }) => {
            assert_eq!(kind, Kind::Directory);
            op
        },
        _ => panic!(),
    };
    let op = match op.resume(Reply::Created(Ok(InodeId(9, 0)))) {
        Step::Call(op, Request::Link { parent, name, child, slot }) => {
            assert_eq!((parent, name.as_str(), child, slot), (InodeId(5, 0), "e", InodeId(9, 0), 0));
            op
        },
        _ => panic!(),
    };
    match op.resume(Reply::Done(Err(FsError::AlreadyExists))) {
        Step::Finish(r) => fails(r, ErrorKind::AlreadyExists, "Error: AlreadyExists"),
        _ => panic!(),
    }
    let op = match fs::create_dir(Path::new("/d/e")) {
        Step::Call(op, _) => op,
        _ => panic!(),
    };
    let (op, _) = expect_call(op.resume(Reply::Resolved(Ok(InodeId(5, 0)))));
    let (op, _) = expect_call(op.resume(Reply::Stat(Some(dir))));
    match op.resume(Reply::Created(Err(FsError::NotMounted))) {
        Step::Finish(r) => fails(r, ErrorKind::NotConnected, "Error: NotMounted"),
        _ => panic!(),
    }
}

fn expect_call<M, T>(s: Step<M, T>) -> (M, Request) {
    match s {
        Step::Call(m, q) => (m, q),
        Step::Finish(_) => panic!("expected a call"),
    }
}

fn describe(q: &Request) -> String {
    match q {
        Request::Resolve { path, slot } => format!("resolve {} {}", path, slot),
        Request::Stat { id, .. } => format!("stat {}", id.0),
        Request::New { inode, .. } => format!("new {}", inode.id.0),
        Request::Link { parent, name, child, .. } => format!("link {} {} {}", parent.0, name, child.0),
        _ => "other".to_string(),
    }
}

fn dir_inode(n: u32) -> Inode {
    let mut i = Inode::new();
    i.id = InodeId(n, 0);
    i.kind = Kind::Directory;
    i
}

#[test]
fn create_dir_all_makes_parents_then_the_path() {
    let mut seen = Vec::new();
    let (op, q) = expect_call(fs::create_dir_all(Path::new("/a/b")));
    seen.push(describe(&q));
    let (op, q) = expect_call(op.resume(Reply::Resolved(Err(FsError::NoEntry))));
    seen.push(describe(&q));
    let (op, q) = expect_call(op.resume(Reply::Resolved(Ok(InodeId(1, 0)))));
    seen.push(describe(&q));
    let (op, q) = expect_call(op.resume(Reply::Stat(Some(dir_inode(1)))));
    seen.push(describe(&q));
    let (op, q) = expect_call(op.resume(Reply::Created(Ok(InodeId(2, 0)))));
    seen.push(describe(&q));
    let (op, q) = expect_call(op.resume(Reply::Done(Ok(()))));
    seen.push(describe(&q));
    let (op, q) = expect_call(op.resume(Reply::Resolved(Ok(InodeId(2, 0)))));
    seen.push(describe(&q));
    let (op, q) = expect_call(op.resume(Reply::Stat(Some(dir_inode(2)))));
    seen.push(describe(&q));
    let (op, q) = expect_call(op.resume(Reply::Created(Ok(InodeId(3, 0)))));
    seen.push(describe(&q));
    match op.resume(Reply::Done(Ok(()))) {
        Step::Finish(r) => assert!(r.is_ok()),
        Step::Call(..) => panic!("expected the end"),
    }
    assert_eq!(
        seen,
        vec![
            "resolve /a 0", "resolve / 0", "stat 1", "new 1", "link 1 a 2", "resolve /a 0", "stat 2", "new 2",
            "link 2 b 3",
        ]
    );
}

#[test]
fn create_dir_all_in_a_kernel() {
    let mut k = sample();
    assert!(run(&mut k, fs::create_dir_all(Path::new("/docs/p/q"))).is_ok());
    assert_eq!(
        k.log,
        vec![
            "resolve /docs/p 0", "resolve /docs 0", "stat 2", "new 2", "link 2 p 10", "resolve /docs/p 0",
            "stat 10", "new 10", "link 10 q 11",
        ]
    );
    assert!(run(&mut k, fs::metadata(Path::new("/docs/p/q"))).ok().unwrap().is_dir());
}

#[test]
fn create_dir_all_of_a_path_without_file_name() {
    let mut k = sample();
    assert!(run(&mut k, fs::create_dir_all(Path::new("/docs/r/.."))).is_ok());
    assert_eq!(
        k.log,
        vec!["resolve /docs/r 0", "resolve /docs 0", "stat 2", "new 2", "link 2 r 10", "resolve /docs/r 0", "stat 10", "new 10"]
    );
}

#[test]
fn create_dir_all_retry_failure_is_final() {
    let (op, _) = expect_call(fs::create_dir_all(Path::new("/a/b")));
    let (op, _) = expect_call(op.resume(Reply::Resolved(Err(FsError::NoEntry))));
    let (op, _) = expect_call(op.resume(Reply::Resolved(Ok(InodeId(1, 0)))));
    let (op, _) = expect_call(op.resume(Reply::Stat(Some(dir_inode(1)))));
    let (op, _) = expect_call(op.resume(Reply::Created(Ok(InodeId(2, 0)))));
    let (op, q) = expect_call(op.resume(Reply::Done(Ok(()))));
    assert_eq!(describe(&q), "resolve /a 0");
    match op.resume(Reply::Resolved(Err(FsError::NoEntry))) {
        Step::Finish(r) => fails(r, ErrorKind::NotFound, "Can't resolve `/a`: NoEntry"),
        Step::Call(..) => panic!("a retry does not climb again"),
    }
}

#[test]
fn create_dir_all_refusals() {
    let mut k = sample();
    fails(run(&mut k, fs::create_dir_all(Path::new("/"))), ErrorKind::NotFound, "Attempt to create root");
    fails(run(&mut k, fs::create_dir_all(Path::new("a"))), ErrorKind::NotFound, "Attempt to create root");
    fails(
        run(&mut k, fs::create_dir_all(Path::new("/docs/a.txt/x"))),
        ErrorKind::NotADirectory,
        "`/docs/a.txt` is not a directory",
    );
    // A relative path whose top is missing climbs to a bare name, which has
    // no parent.
    fails(run(&mut k, fs::create_dir_all(Path::new("no/x"))), ErrorKind::NotFound, "Attempt to create root");
}

// ---------------------------------------------------------------------------
// Removing
// ---------------------------------------------------------------------------

#[test]
fn remove_file_unlinks_files_only() {
    let mut k = sample();
    fails(run(&mut k, fs::remove_file(Path::new("/docs"))), ErrorKind::IsADirectory, "`/docs` is a directory");
    assert!(k.log.iter().all(|l| !l.starts_with("unlink")));
    assert!(run(&mut k, fs::remove_file(Path::new("/docs/a.txt"))).is_ok());
    assert_eq!(run(&mut k, fs::path_exists(Path::new("/docs/a.txt"))).ok(), Some(false));
    fails(run(&mut k, fs::remove_file(Path::new("/docs/a.txt"))), ErrorKind::NotFound, "`/docs/a.txt` not found");
    fails(run(&mut k, fs::remove_file(Path::new("/"))), ErrorKind::Other, "Cannot remove root");
    fails(
        run(&mut k, fs::remove_file(Path::new("/none/x"))),
        ErrorKind::NotFound,
        "Can't resolve parent `/none`: NoEntry",
    );
}

#[test]
fn remove_dir_only_when_empty() {
    let mut k = sample();
    fails(run(&mut k, fs::remove_dir(Path::new("/docs"))), ErrorKind::DirectoryNotEmpty, "`/docs` is not empty");
    fails(
        run(&mut k, fs::remove_dir(Path::new("/docs/a.txt"))),
        ErrorKind::NotADirectory,
        "`/docs/a.txt` is not a directory",
    );
    assert!(k.log.iter().all(|l| !l.starts_with("unlink")));
    assert!(run(&mut k, fs::remove_dir(Path::new("/empty"))).is_ok());
    assert_eq!(run(&mut k, fs::path_exists(Path::new("/empty"))).ok(), Some(false));
}

#[test]
fn remove_failure_is_reported() {
    let mut k = sample();
    k.fail_unlink_of = Some("empty".to_string());
    fails(run(&mut k, fs::remove_dir(Path::new("/empty"))), ErrorKind::DirectoryNotEmpty, "Failed to remove `/empty`: NotEmpty");
}

#[test]
fn remove_dir_all_removes_depth_first() {
    let mut k = sample();
    assert!(run(&mut k, fs::remove_dir_all(Path::new("/tree"))).is_ok());
    let unlinks: Vec<&String> = k.log.iter().filter(|l| l.starts_with("unlink")).collect();
    assert_eq!(unlinks, vec!["unlink 0 7 y.txt", "unlink 0 6 x", "unlink 0 6 z.txt", "unlink 0 1 tree"]);
    assert_eq!(k.log[..3], ["resolve / 0", "lookup 1 tree", "stat 6"]);
    assert_eq!(run(&mut k, fs::path_exists(Path::new("/tree"))).ok(), Some(false));
    assert!(k.entries.iter().all(|e| e.0 != InodeId(6, 0) && e.0 != InodeId(7, 0)));
}

#[test]
fn remove_dir_all_unlinks_links_without_following() {
    let mut k = sample();
    assert!(run(&mut k, fs::remove_dir_all(Path::new("/docs"))).is_ok());
    // The link is stat'ed and unlinked; what it points to is never listed.
    assert_eq!(k.log.iter().filter(|l| l.starts_with("list")).count(), 1);
    assert!(k.log.contains(&"unlink 0 2 link".to_string()));
}

#[test]
fn remove_dir_all_removes_a_final_link_only() {
    let mut k = sample();
    assert!(run(&mut k, fs::remove_dir_all(Path::new("/docs/link"))).is_ok());
    assert_eq!(k.log, vec!["resolve /docs 0", "lookup 2 link", "stat 4", "unlink 0 2 link"]);
    assert_eq!(run(&mut k, fs::path_exists(Path::new("/docs/a.txt"))).ok(), Some(true));
}

#[test]
fn remove_dir_all_errors() {
    let mut k = sample();
    fails(run(&mut k, fs::remove_dir_all(Path::new("/nope"))), ErrorKind::NotFound, "`/nope` not found");
    fails(
        run(&mut k, fs::remove_dir_all(Path::new("/no/pe"))),
        ErrorKind::NotFound,
        "Can't resolve parent `/no`: NoEntry",
    );
    k.fail_unlink_of = Some("y.txt".to_string());
    fails(
        run(&mut k, fs::remove_dir_all(Path::new("/tree"))),
        ErrorKind::DirectoryNotEmpty,
        "Failed to unlink `y.txt`: NotEmpty",
    );
    // The root's contents go, then the root itself is refused.
    let mut k = sample();
    fails(run(&mut k, fs::remove_dir_all(Path::new("/"))), ErrorKind::Other, "Cannot remove root");
    assert!(k.entries.is_empty());
}

#[test]
fn remove_dir_all_entry_without_stat() {
    let op = match fs::remove_dir_all(Path::new("/t")) {
        Step::Call(op, _) => op,
        _ => panic!(),
    };
    let op = match op.resume(Reply::Resolved(Ok(InodeId(1, 0)))) {
        Step::Call(op, Request::Lookup { dir, name, .. }) => {
            assert_eq!((dir, name.as_str()), (InodeId(1, 0), "t"));
            op
        },
        _ => panic!(),
    };
    let op = match op.resume(Reply::Found(Some(InodeId(5, 0)))) {
        Step::Call(op, _) => op,
        _ => panic!(),
    };
    let mut dir = Inode::new();
    dir.kind = Kind::Directory;
    let op = match op.resume(Reply::Stat(Some(dir))) {
        Step::Call(op, Request::ListDir { dir, .. }) => {
            assert_eq!(dir, InodeId(5, 0));
            op
        },
        _ => panic!(),
    };
    let op = match op.resume(Reply::Listing(vec![("e".to_string(), InodeId(8, 0))])) {
        Step::Call(op, Request::Stat { id, .. }) => {
            assert_eq!(id, InodeId(8, 0));
            op
        },
        _ => panic!(),
    };
    match op.resume(Reply::Stat(None)) {
        Step::Finish(r) => fails(r, ErrorKind::Other, "Can't stat entry"),
        _ => panic!(),
    }
}

// ---------------------------------------------------------------------------
// Renaming
// ---------------------------------------------------------------------------

#[test]
fn rename_moves_a_file() {
    let mut k = sample();
    assert!(run(&mut k, fs::rename(Path::new("/docs/a.txt"), Path::new("/empty/b.txt"))).is_ok());
    assert_eq!(run(&mut k, fs::path_exists(Path::new("/docs/a.txt"))).ok(), Some(false));
    assert_eq!(run(&mut k, fs::read(Path::new("/empty/b.txt"))).ok(), Some(b"hello".to_vec()));
}

#[test]
fn rename_replaces_a_file() {
    let mut k = sample();
    assert!(run(&mut k, fs::rename(Path::new("/tree/z.txt"), Path::new("/docs/a.txt"))).is_ok());
    assert_eq!(run(&mut k, fs::read(Path::new("/docs/a.txt"))).ok(), Some(b"z".to_vec()));
}

#[test]
fn rename_onto_itself_keeps_the_file() {
    let mut k = sample();
    assert!(run(&mut k, fs::rename(Path::new("/docs/a.txt"), Path::new("/docs/a.txt"))).is_ok());
    assert!(k.log.iter().all(|l| !l.starts_with("unlink") && !l.starts_with("link")));
    assert_eq!(run(&mut k, fs::read(Path::new("/docs/a.txt"))).ok(), Some(b"hello".to_vec()));
}

#[test]
fn rename_refusals() {
    let mut k = sample();
    fails(run(&mut k, fs::rename(Path::new("/"), Path::new("/x"))), ErrorKind::Other, "Cannot rename root");
    fails(run(&mut k, fs::rename(Path::new("/x"), Path::new("/"))), ErrorKind::Other, "Cannot rename to root");
    fails(
        run(&mut k, fs::rename(Path::new("/docs"), Path::new("/d2"))),
        ErrorKind::Other,
        "Renaming directories is not supported: `/docs`",
    );
    fails(
        run(&mut k, fs::rename(Path::new("/docs/a.txt"), Path::new("/tree/x"))),
        ErrorKind::IsADirectory,
        "Destination `/tree/x` is a directory",
    );
    fails(run(&mut k, fs::rename(Path::new("/docs/q"), Path::new("/r"))), ErrorKind::NotFound, "Source `/docs/q` not found");
    fails(
        run(&mut k, fs::rename(Path::new("/nope/q"), Path::new("/r"))),
        ErrorKind::NotFound,
        "Can't resolve source parent `/nope`: NoEntry",
    );
    fails(
        run(&mut k, fs::rename(Path::new("/docs/a.txt"), Path::new("/nope/r"))),
        ErrorKind::NotFound,
        "Can't resolve destination parent `/nope`: NoEntry",
    );
    assert!(k.log.iter().all(|l| !l.starts_with("link")));
}

#[test]
fn rename_cleans_up_when_source_stays() {
    let mut k = sample();
    k.fail_unlink_of = Some("a.txt".to_string());
    fails(
        run(&mut k, fs::rename(Path::new("/docs/a.txt"), Path::new("/empty/b.txt"))),
        ErrorKind::DirectoryNotEmpty,
        "Failed to unlink source: NotEmpty",
    );
    assert_eq!(run(&mut k, fs::path_exists(Path::new("/empty/b.txt"))).ok(), Some(false));
    assert_eq!(run(&mut k, fs::path_exists(Path::new("/docs/a.txt"))).ok(), Some(true));
}

#[test]
fn rename_link_failure() {
    let op = match fs::rename(Path::new("/a/b"), Path::new("/c/d")) {
        Step::Call(op, _) => op,
        _ => panic!(),
    };
    let op = match op.resume(Reply::Resolved(Ok(InodeId(2, 0)))) {
        Step::Call(op, _) => op,
        _ => panic!(),
    };
    let op = match op.resume(Reply::Found(Some(InodeId(3, 0)))) {
        Step::Call(op, _) => op,
        _ => panic!(),
    };
    let mut f = Inode::new();
    f.kind = Kind::File;
    let op = match op.resume(Reply::Stat(Some(f))) {
        Step::Call(op, Request::Resolve { path, slot }) => {
            assert_eq!(path, "/c");
            assert_eq!(slot, 1);
            op
        },
        _ => panic!(),
    };
    let op = match op.resume(Reply::Resolved(Ok(InodeId(4, 0)))) {
        Step::Call(op, _) => op,
        _ => panic!(),
    };
    let op = match op.resume(Reply::Found(None)) {
        Step::Call(op, Request::Link { parent, name, child, slot }) => {
            assert_eq!((parent, name.as_str(), child, slot), (InodeId(4, 0), "d", InodeId(3, 0), 1));
            op
        },
        _ => panic!(),
    };
    match op.resume(Reply::Done(Err(FsError::Found))) {
        Step::Finish(r) => fails(r, ErrorKind::AlreadyExists, "Failed to create link at destination: Found"),
        _ => panic!(),
    }
}

// ---------------------------------------------------------------------------
// Canonical paths through the file-system module
// ---------------------------------------------------------------------------

#[test]
fn fs_canonicalize_without_links() {
    let mut k = sample();
    let c = run(&mut k, fs::canonicalize(Path::new("a/../docs"), "disk", Some("disk:/"))).ok().unwrap();
    assert_eq!(c.as_str(), "disk:/docs");
    // What cannot be found is kept as it stands.
    let c = run(&mut k, fs::canonicalize(Path::new("x/../y/z"), "disk", Some("disk:/home"))).ok().unwrap();
    assert_eq!(c.as_str(), "disk:/home/y/z");
    // A root needs no kernel call.
    let mut k = sample();
    let c = run(&mut k, fs::canonicalize(Path::new("/.."), "disk", None)).ok().unwrap();
    assert_eq!(c.as_str(), "disk:/");
    assert!(k.log.is_empty());
}

#[test]
fn fs_canonicalize_resolves_links() {
    let mut k = sample();
    let c = run(&mut k, fs::canonicalize(Path::new("/docs/link"), "disk", None)).ok().unwrap();
    assert_eq!(c.as_str(), "disk:/docs/a.txt");
    let mut k = sample();
    k.add(InodeId(2, 0), "rel", Kind::SymLink, b"a.txt");
    let c = run(&mut k, fs::canonicalize(Path::new("/docs/rel"), "disk", None)).ok().unwrap();
    assert_eq!(c.as_str(), "disk:/docs/a.txt");
    // A link to a directory in the middle of the path.
    let mut k = sample();
    k.add(ROOT, "t", Kind::SymLink, b"tree/x");
    let c = run(&mut k, fs::canonicalize(Path::new("/t/y.txt"), "disk", None)).ok().unwrap();
    assert_eq!(c.as_str(), "disk:/tree/x/y.txt");
}

#[test]
fn fs_canonicalize_stops_on_link_loops() {
    let mut k = sample();
    k.add(InodeId(2, 0), "loop", Kind::SymLink, b"/docs/loop");
    // Past the limit the link is left as it stands: the walk never fails.
    let c = run(&mut k, fs::canonicalize(Path::new("/docs/loop"), "disk", None)).ok().unwrap();
    assert_eq!(c.as_str(), "disk:/docs/loop");
}

#[test]
fn read_gives_as_many_bytes_as_metadata_len() {
    let mut k = sample();
    let md = run(&mut k, fs::metadata(Path::new("/tree/x/y.txt"))).ok().unwrap();
    let v = run(&mut k, fs::read(Path::new("/tree/x/y.txt"))).ok().unwrap();
    assert_eq!(v.len() as u64, md.len());
    assert_eq!(v, b"y".to_vec());
}

#[test]
fn read_to_string_is_read_decoded() {
    let mut k = sample();
    let bytes = run(&mut k, fs::read(Path::new("/docs/a.txt"))).ok().unwrap();
    let text = run(&mut k, fs::read_to_string(Path::new("/docs/a.txt"))).ok().unwrap();
    assert_eq!(text, String::from_utf8_lossy(&bytes).to_string());
    let e1 = run(&mut k, fs::read(Path::new("/docs/none"))).err().unwrap();
    let e2 = run(&mut k, fs::read_to_string(Path::new("/docs/none"))).err().unwrap();
    assert_eq!(e1.kind(), e2.kind());
}
