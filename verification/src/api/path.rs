//! Path manipulation.
//!
//! A path may begin with a root predicate naming a file-system root
//! (`home:/Documents/report.docx`). Without a predicate the path is taken
//! relative to the current root. A path is modelled by its sequence of
//! characters; every operation is stated over that sequence.

use vstd::prelude::*;
use crate::io::Error;
use crate::text::{
    chars_of, find_in, first_index, group_text_lemmas, lacks, last_index, lemma_first_index,
    lemma_first_index_at, lemma_first_index_none, rfind_in,
};

verus! {

broadcast use group_text_lemmas;

// ---------------------------------------------------------------------------
// The path grammar, stated over character sequences.
// ---------------------------------------------------------------------------

/// Splits `s` at its first `:` into a predicate and the rest, when the text
/// before that colon is non-empty and holds no `/`.
pub open spec fn spec_parse_predicate(s: Seq<char>) -> Option<(Seq<char>, Seq<char>)> {
    match first_index(s, ':') {
        Some(i) => if i > 0 && lacks(s.subrange(0, i), '/') {
            Some((s.subrange(0, i), s.subrange(i + 1, s.len() as int)))
        } else {
            None
        },
        None => None,
    }
}

/// The predicate of `s`, if it has one.
pub open spec fn spec_predicate(s: Seq<char>) -> Option<Seq<char>> {
    match spec_parse_predicate(s) {
        Some((p, _)) => Some(p),
        None => None,
    }
}

/// Where the part after the predicate begins.
pub open spec fn rest_start(s: Seq<char>) -> int {
    match spec_parse_predicate(s) {
        Some((p, _)) => p.len() + 1int,
        None => 0,
    }
}

/// The part of `s` after its predicate (all of `s` when it has none).
pub open spec fn spec_rest(s: Seq<char>) -> Seq<char> {
    s.subrange(rest_start(s), s.len() as int)
}

/// A path is absolute when the part after its predicate starts with `/`.
pub open spec fn spec_is_absolute(s: Seq<char>) -> bool {
    let r = spec_rest(s);
    r.len() > 0 && r[0] == '/'
}

/// The parent of `s`: everything before the last `/` after the predicate
/// (the root, `/` or `pred:/`, when that slash is the first character after
/// the predicate), or the bare predicate when no `/` follows it.
pub open spec fn spec_parent(s: Seq<char>) -> Option<Seq<char>> {
    let off = rest_start(s);
    let r = spec_rest(s);
    if r.len() == 0 || r == seq!['/'] {
        None
    } else {
        match last_index(r, '/') {
            Some(k) => if k == 0 {
                Some(s.subrange(0, off + 1))
            } else {
                Some(s.subrange(0, off + k))
            },
            None => if spec_parse_predicate(s) is Some {
                Some(s.subrange(0, off))
            } else {
                None
            },
        }
    }
}

/// `s` without its trailing run of `c`.
pub open spec fn trim_trailing(s: Seq<char>, c: char) -> Seq<char>
    decreases s.len(),
{
    if s.len() > 0 && s.last() == c {
        trim_trailing(s.drop_last(), c)
    } else {
        s
    }
}

/// `.` or `..`.
pub open spec fn is_dot_name(n: Seq<char>) -> bool {
    n == seq!['.'] || n == seq!['.', '.']
}

/// The last component of `s` once trailing slashes are ignored, unless it is
/// `.` or `..`.
pub open spec fn spec_file_name(s: Seq<char>) -> Option<Seq<char>> {
    let r = spec_rest(s);
    if r.len() == 0 || r == seq!['/'] {
        None
    } else {
        let t = trim_trailing(r, '/');
        let name = match last_index(t, '/') {
            Some(k) => t.subrange(k + 1, t.len() as int),
            None => t,
        };
        if is_dot_name(name) {
            None
        } else {
            Some(name)
        }
    }
}

/// What follows the last `.` of the file name.
pub open spec fn spec_extension(s: Seq<char>) -> Option<Seq<char>> {
    match spec_file_name(s) {
        Some(n) => match last_index(n, '.') {
            Some(d) => Some(n.subrange(d + 1, n.len() as int)),
            None => None,
        },
        None => None,
    }
}

/// Length of the leading run of characters other than `/`.
pub open spec fn segment_len(r: Seq<char>) -> int {
    match first_index(r, '/') {
        Some(k) => k,
        None => r.len() as int,
    }
}

/// The maximal non-empty runs of characters other than `/`, in order.
pub open spec fn segments(r: Seq<char>) -> Seq<Seq<char>>
    decreases r.len(),
{
    if r.len() == 0 {
        Seq::empty()
    } else if r[0] == '/' {
        segments(r.drop_first())
    } else {
        proof {
            lemma_first_index(r, '/');
        }
        let k = segment_len(r);
        seq![r.subrange(0, k)] + segments(r.subrange(k, r.len() as int))
    }
}

/// A component of a path, as a value.
pub enum ComponentView {
    Predicate(Seq<char>),
    RootDir,
    CurDir,
    ParentDir,
    Normal(Seq<char>),
}

/// The component that a segment stands for.
pub open spec fn segment_component(g: Seq<char>) -> ComponentView {
    if g == seq!['.'] {
        ComponentView::CurDir
    } else if g == seq!['.', '.'] {
        ComponentView::ParentDir
    } else {
        ComponentView::Normal(g)
    }
}

/// The components of `s`: its predicate, a root when it is absolute, then
/// one component per segment of the rest.
pub open spec fn spec_components(s: Seq<char>) -> Seq<ComponentView> {
    let pred_part = match spec_parse_predicate(s) {
        Some((p, _)) => seq![ComponentView::Predicate(p)],
        None => Seq::empty(),
    };
    let root_part = if spec_is_absolute(s) {
        seq![ComponentView::RootDir]
    } else {
        Seq::empty()
    };
    pred_part + root_part + segments(spec_rest(s)).map_values(|g: Seq<char>| segment_component(g))
}

/// `buf` extended by `p`: `p` replaces `buf` when it has a predicate or a
/// leading `/`; otherwise it is appended, with a `/` between the two unless
/// `buf` is empty or already ends in `/` or `:`.
pub open spec fn spec_push(buf: Seq<char>, p: Seq<char>) -> Seq<char> {
    if spec_parse_predicate(p) is Some || (p.len() > 0 && p[0] == '/') {
        p
    } else if buf.len() > 0 && buf.last() != '/' && buf.last() != ':' {
        buf + seq!['/'] + p
    } else {
        buf + p
    }
}

/// The path after `set_file_name(name)`: the parent with `name` pushed; a
/// single relative name without a parent is replaced by `name`; a path with
/// neither a parent nor a file name is kept.
pub open spec fn spec_set_file_name(buf: Seq<char>, name: Seq<char>) -> Seq<char> {
    match spec_parent(buf) {
        Some(p) => spec_push(p, name),
        None => if spec_file_name(buf) is Some {
            name
        } else {
            buf
        },
    }
}

/// The file name with its extension replaced by `ext`.
pub open spec fn spec_with_extension(name: Seq<char>, ext: Seq<char>) -> Seq<char> {
    match last_index(name, '.') {
        Some(d) => name.subrange(0, d) + seq!['.'] + ext,
        None => name + seq!['.'] + ext,
    }
}

/// The path after `set_extension(ext)`.
pub open spec fn spec_set_extension(buf: Seq<char>, ext: Seq<char>) -> Seq<char> {
    match spec_file_name(buf) {
        Some(n) => spec_set_file_name(buf, spec_with_extension(n, ext)),
        None => buf,
    }
}

/// One step of normalisation: `.` is dropped, `..` removes the last kept
/// segment (if any), any other segment is kept.
pub open spec fn norm_step(acc: Seq<Seq<char>>, g: Seq<char>) -> Seq<Seq<char>> {
    if g == seq!['.'] {
        acc
    } else if g == seq!['.', '.'] {
        if acc.len() > 0 {
            acc.drop_last()
        } else {
            acc
        }
    } else {
        acc.push(g)
    }
}

/// The segments kept once `.` and `..` are resolved, left to right.
pub open spec fn normalize(segs: Seq<Seq<char>>) -> Seq<Seq<char>>
    decreases segs.len(),
{
    if segs.len() == 0 {
        Seq::empty()
    } else {
        norm_step(normalize(segs.drop_last()), segs.last())
    }
}

/// Each segment preceded by a `/`.
pub open spec fn slash_join(segs: Seq<Seq<char>>) -> Seq<char>
    decreases segs.len(),
{
    if segs.len() == 0 {
        Seq::empty()
    } else {
        slash_join(segs.drop_last()) + seq!['/'] + segs.last()
    }
}

/// The full path that `s` denotes inside the working directory `pwd`.
pub open spec fn spec_full_path(s: Seq<char>, pwd: Seq<char>) -> Seq<char> {
    let r = spec_rest(s);
    if spec_is_absolute(s) {
        r
    } else {
        let cr = spec_rest(pwd);
        if cr.len() == 0 {
            r
        } else {
            cr + seq!['/'] + r
        }
    }
}

/// The absolute text of a segment list: each segment preceded by `/`, or
/// the root `/` itself when there are none.
pub open spec fn canonical_tail(segs: Seq<Seq<char>>) -> Seq<char> {
    if segs.len() == 0 {
        seq!['/']
    } else {
        slash_join(segs)
    }
}

/// The canonical form of `s`, with `root` standing for the missing predicate
/// and `pwd` for the working directory: the predicate, a `:`, then each
/// normalised segment preceded by `/` (just `/` when none is left).
pub open spec fn spec_canonicalize(s: Seq<char>, root: Seq<char>, pwd: Seq<char>) -> Seq<char> {
    let pred = match spec_parse_predicate(s) {
        Some((p, _)) => p,
        None => root,
    };
    pred + seq![':'] + canonical_tail(normalize(segments(spec_full_path(s, pwd))))
}

/// The predicate that the canonical form of `s` starts with: its own, or
/// `root` when it has none.
pub open spec fn canonical_predicate(s: Seq<char>, root: Seq<char>) -> Seq<char> {
    match spec_parse_predicate(s) {
        Some((p, _)) => p,
        None => root,
    }
}

/// The text of the canonical form with predicate `pred` and segments `segs`.
pub open spec fn canonical_text(pred: Seq<char>, segs: Seq<Seq<char>>) -> Seq<char> {
    pred + seq![':'] + canonical_tail(segs)
}

/// The views of the strings in `v`.
pub open spec fn string_views(v: Seq<String>) -> Seq<Seq<char>> {
    Seq::new(v.len(), |i: int| v[i]@)
}

/// The view of an optional working directory: empty when there is none.
pub open spec fn pwd_view(pwd: Option<&str>) -> Seq<char> {
    match pwd {
        Some(p) => p@,
        None => Seq::empty(),
    }
}

/// A `/` at the front of a run contributes no segment.
pub proof fn lemma_segments_skip(s: Seq<char>, i: int, n: int)
    requires
        0 <= i < n <= s.len(),
        s[i] == '/',
    ensures
        segments(s.subrange(i, n)) == segments(s.subrange(i + 1, n)),
{
    assert(s.subrange(i, n).drop_first() =~= s.subrange(i + 1, n));
}

/// A maximal run of non-`/` characters is the next segment.
pub proof fn lemma_segments_take(s: Seq<char>, i: int, j: int, n: int)
    requires
        0 <= i < j <= n <= s.len(),
        forall|k: int| i <= k < j ==> s[k] != '/',
        j == n || s[j] == '/',
    ensures
        segments(s.subrange(i, n)) == seq![s.subrange(i, j)] + segments(s.subrange(j, n)),
{
    let r = s.subrange(i, n);
    assert(r[0] == s[i]);
    if j < n {
        assert forall|k: int| 0 <= k < j - i implies r[k] != '/' by {
            assert(r[k] == s[i + k]);
        }
        assert(r[j - i] == s[j]);
        lemma_first_index_at(r, '/', j - i);
    } else {
        assert forall|k: int| 0 <= k < r.len() implies r[k] != '/' by {
            assert(r[k] == s[i + k]);
        }
        lemma_first_index_none(r, '/');
    }
    assert(segment_len(r) == j - i);
    assert(r.subrange(0, j - i) =~= s.subrange(i, j));
    assert(r.subrange(j - i, r.len() as int) =~= s.subrange(j, n));
}

// ---------------------------------------------------------------------------
// Executable helpers.
// ---------------------------------------------------------------------------

/// Position of the colon that ends a valid predicate of `cs`.
fn predicate_colon(cs: &Vec<char>) -> (r: Option<usize>)
    ensures
        match r {
            Some(i) => i < cs@.len() && spec_parse_predicate(cs@) == Some(
                (cs@.subrange(0, i as int), cs@.subrange(i + 1, cs@.len() as int)),
            ),
            None => spec_parse_predicate(cs@) is None,
        },
{
    let n = cs.len();
    assert(cs@.subrange(0, n as int) == cs@);
    match find_in(cs, 0, n, ':') {
        Some(i) => {
            if i > 0 {
                let slash = find_in(cs, 0, i, '/');
                if slash.is_none() {
                    return Some(i);
                }
            }
            None
        },
        None => None,
    }
}

/// Where the rest of `cs` begins.
fn rest_offset(cs: &Vec<char>) -> (off: usize)
    ensures
        off == rest_start(cs@),
        off <= cs@.len(),
        off > 0 <==> spec_parse_predicate(cs@) is Some,
{
    let n = cs.len();
    match predicate_colon(cs) {
        Some(i) => {
            assert(i < n);
            i + 1
        },
        None => 0,
    }
}

/// Splits `s` into its predicate and the rest.
pub fn parse_predicate<'a>(s: &'a str) -> (r: Option<(&'a str, &'a str)>)
    ensures
        match r {
            Some((p, q)) => spec_parse_predicate(s@) == Some((p@, q@)),
            None => spec_parse_predicate(s@) is None,
        },
{
    let cs = chars_of(s);
    match predicate_colon(&cs) {
        Some(i) => Some((s.substring_char(0, i), s.substring_char(i + 1, cs.len()))),
        None => None,
    }
}


// ---------------------------------------------------------------------------
// Component.
// ---------------------------------------------------------------------------

/// A single component of a path.
#[derive(Debug, Clone, Copy, PartialEq, Eq)]
pub enum Component<'a> {
    /// A root predicate (`home` of `home:/Documents`).
    Predicate(&'a str),
    /// The root directory separator `/`.
    RootDir,
    /// The current directory `.`.
    CurDir,
    /// The parent directory `..`.
    ParentDir,
    /// A normal component.
    Normal(&'a str),
}

impl<'a> View for Component<'a> {
    type V = ComponentView;

    open spec fn view(&self) -> ComponentView {
        match *self {
            Component::Predicate(s) => ComponentView::Predicate(s@),
            Component::RootDir => ComponentView::RootDir,
            Component::CurDir => ComponentView::CurDir,
            Component::ParentDir => ComponentView::ParentDir,
            Component::Normal(s) => ComponentView::Normal(s@),
        }
    }
}

/// The text a component stands for.
pub open spec fn spec_component_str(c: ComponentView) -> Seq<char> {
    match c {
        ComponentView::Predicate(s) => s,
        ComponentView::RootDir => seq!['/'],
        ComponentView::CurDir => seq!['.'],
        ComponentView::ParentDir => seq!['.', '.'],
        ComponentView::Normal(s) => s,
    }
}

impl<'a> Component<'a> {
    /// The string representation of the component.
    pub fn as_str(&self) -> (r: &'a str)
        ensures
            r@ == spec_component_str(self@),
    {
        match *self {
            Component::Predicate(s) => s,
            Component::RootDir => {
                proof {
                    reveal_strlit("/");
                }
                "/"
            },
            Component::CurDir => {
                proof {
                    reveal_strlit(".");
                }
                "."
            },
            Component::ParentDir => {
                proof {
                    reveal_strlit("..");
                }
                ".."
            },
            Component::Normal(s) => s,
        }
    }
}

/// The component for the segment `s[start..end]`.
fn segment_to_component<'a>(s: &'a str, cs: &Vec<char>, start: usize, end: usize) -> (c: Component<'a>)
    requires
        cs@ == s@,
        start < end <= cs@.len(),
    ensures
        c@ == segment_component(cs@.subrange(start as int, end as int)),
{
    let ghost g = cs@.subrange(start as int, end as int);
    let len = end - start;
    if len == 1 && cs[start] == '.' {
        assert(g =~= seq!['.']);
        Component::CurDir
    } else if len == 2 && cs[start] == '.' && cs[start + 1] == '.' {
        assert(g =~= seq!['.', '.']);
        assert(g != seq!['.']) by {
            if g == seq!['.'] {
                assert(g.len() == 1);
            }
        }
        Component::ParentDir
    } else {
        assert(g != seq!['.']) by {
            if g == seq!['.'] {
                assert(g.len() == 1 && g[0] == '.');
            }
        }
        assert(g != seq!['.', '.']) by {
            if g == seq!['.', '.'] {
                assert(g.len() == 2 && g[0] == '.' && g[1] == '.');
            }
        }
        Component::Normal(s.substring_char(start, end))
    }
}

/// Whether `cs[start..end]` is `.` (1), `..` (2) or neither (0).
fn dot_kind(cs: &Vec<char>, start: usize, end: usize) -> (r: u8)
    requires
        start <= end <= cs@.len(),
    ensures
        r == 1 <==> cs@.subrange(start as int, end as int) == seq!['.'],
        r == 2 <==> cs@.subrange(start as int, end as int) == seq!['.', '.'],
        r <= 2,
{
    let ghost g = cs@.subrange(start as int, end as int);
    let len = end - start;
    if len == 1 && cs[start] == '.' {
        assert(g =~= seq!['.']);
        assert(g != seq!['.', '.']) by {
            if g == seq!['.', '.'] {
                assert(g.len() == 2);
            }
        }
        1
    } else if len == 2 && cs[start] == '.' && cs[start + 1] == '.' {
        assert(g =~= seq!['.', '.']);
        assert(g != seq!['.']) by {
            if g == seq!['.'] {
                assert(g.len() == 1);
            }
        }
        2
    } else {
        assert(g != seq!['.']) by {
            if g == seq!['.'] {
                assert(g.len() == 1 && g[0] == '.');
            }
        }
        assert(g != seq!['.', '.']) by {
            if g == seq!['.', '.'] {
                assert(g.len() == 2 && g[0] == '.' && g[1] == '.');
            }
        }
        0
    }
}

/// The segments that a stack of ranges over `cs` stands for.
pub open spec fn ranges_view(cs: Seq<char>, st: Seq<(usize, usize)>) -> Seq<Seq<char>> {
    st.map_values(|p: (usize, usize)| cs.subrange(p.0 as int, p.1 as int))
}

/// The views of a sequence of components.
pub open spec fn components_view<'a>(v: Seq<Component<'a>>) -> Seq<ComponentView> {
    v.map_values(|c: Component<'a>| c@)
}

// ---------------------------------------------------------------------------
// Path.
// ---------------------------------------------------------------------------

/// A borrowed path (analogous to `str`).
#[derive(Clone, Copy, Debug, PartialEq, Eq, Hash, PartialOrd, Ord)]
pub struct Path<'a> {
    inner: &'a str,
}

impl<'a> View for Path<'a> {
    type V = Seq<char>;

    closed spec fn view(&self) -> Seq<char> {
        self.inner@
    }
}

impl<'a> Path<'a> {
    /// Wraps a string slice as a path.
    pub fn new(s: &'a str) -> (p: Path<'a>)
        ensures
            p@ == s@,
    {
        Path { inner: s }
    }

    /// The path as a string slice.
    pub fn as_str(&self) -> (r: &'a str)
        ensures
            r@ == self@,
    {
        self.inner
    }

    /// Whether the path has a predicate.
    pub fn has_predicate(&self) -> (r: bool)
        ensures
            r == spec_parse_predicate(self@) is Some,
    {
        let cs = chars_of(self.inner);
        predicate_colon(&cs).is_some()
    }

    /// The predicate of the path, if any.
    pub fn predicate(&self) -> (r: Option<&'a str>)
        ensures
            match r {
                Some(p) => spec_predicate(self@) == Some(p@),
                None => spec_predicate(self@) is None,
            },
    {
        let cs = chars_of(self.inner);
        match predicate_colon(&cs) {
            Some(i) => Some(self.inner.substring_char(0, i)),
            None => None,
        }
    }

    /// Whether the path is absolute: a `/` right after the predicate, or at
    /// the start when there is none.
    pub fn is_absolute(&self) -> (r: bool)
        ensures
            r == spec_is_absolute(self@),
    {
        let cs = chars_of(self.inner);
        let off = rest_offset(&cs);
        off < cs.len() && cs[off] == '/'
    }

    /// Whether the path is relative.
    pub fn is_relative(&self) -> (r: bool)
        ensures
            r == !spec_is_absolute(self@),
    {
        !self.is_absolute()
    }

    /// The parent directory of this path.
    pub fn parent(&self) -> (r: Option<Path<'a>>)
        ensures
            match r {
                Some(p) => spec_parent(self@) == Some(p@),
                None => spec_parent(self@) is None,
            },
    {
        let cs = chars_of(self.inner);
        let n = cs.len();
        let off = rest_offset(&cs);
        let ghost s = cs@;
        let ghost r = s.subrange(off as int, n as int);
        assert(r == spec_rest(s));
        if off == n {
            return None;
        }
        if n - off == 1 && cs[off] == '/' {
            assert(r =~= seq!['/']);
            return None;
        }
        assert(r != seq!['/']) by {
            if r == seq!['/'] {
                assert(r.len() == 1 && r[0] == '/');
            }
        }
        match rfind_in(&cs, off, n, '/') {
            Some(k) => {
                if k == 0 {
                    Some(Path { inner: self.inner.substring_char(0, off + 1) })
                } else {
                    Some(Path { inner: self.inner.substring_char(0, off + k) })
                }
            },
            None => {
                if off > 0 {
                    Some(Path { inner: self.inner.substring_char(0, off) })
                } else {
                    None
                }
            },
        }
    }

    /// The final component of the path, if any.
    pub fn file_name(&self) -> (r: Option<&'a str>)
        ensures
            match r {
                Some(n) => spec_file_name(self@) == Some(n@),
                None => spec_file_name(self@) is None,
            },
    {
        let cs = chars_of(self.inner);
        let n = cs.len();
        let off = rest_offset(&cs);
        let ghost s = cs@;
        let ghost r = s.subrange(off as int, n as int);
        if off == n {
            return None;
        }
        if n - off == 1 && cs[off] == '/' {
            assert(r =~= seq!['/']);
            return None;
        }
        assert(r != seq!['/']) by {
            if r == seq!['/'] {
                assert(r.len() == 1 && r[0] == '/');
            }
        }
        let mut m = n;
        while m > off && cs[m - 1] == '/'
            invariant
                off <= m <= n,
                n == cs@.len(),
                s == cs@,
                r == s.subrange(off as int, n as int),
                trim_trailing(s.subrange(off as int, m as int), '/') == trim_trailing(r, '/'),
            decreases m - off,
        {
            assert(s.subrange(off as int, m as int).drop_last() =~= s.subrange(off as int, m - 1));
            m = m - 1;
        }
        let ghost t = s.subrange(off as int, m as int);
        assert(trim_trailing(t, '/') == t);
        let start = match rfind_in(&cs, off, m, '/') {
            Some(k) => {
                assert(t.subrange(k + 1, t.len() as int) =~= s.subrange(off + k + 1, m as int));
                off + k + 1
            },
            None => off,
        };
        let ghost name = s.subrange(start as int, m as int);
        let len = m - start;
        if (len == 1 && cs[start] == '.') || (len == 2 && cs[start] == '.' && cs[start + 1] == '.') {
            assert(is_dot_name(name)) by {
                if len == 1 {
                    assert(name =~= seq!['.']);
                } else {
                    assert(name =~= seq!['.', '.']);
                }
            }
            return None;
        }
        assert(!is_dot_name(name)) by {
            if name == seq!['.'] {
                assert(name.len() == 1 && name[0] == '.');
            }
            if name == seq!['.', '.'] {
                assert(name.len() == 2 && name[0] == '.' && name[1] == '.');
            }
        }
        Some(self.inner.substring_char(start, m))
    }

    /// What follows the last `.` of the file name, if any.
    pub fn extension(&self) -> (r: Option<&'a str>)
        ensures
            match r {
                Some(e) => spec_extension(self@) == Some(e@),
                None => spec_extension(self@) is None,
            },
    {
        match self.file_name() {
            Some(name) => {
                let cs = chars_of(name);
                let n = cs.len();
                assert(cs@.subrange(0, n as int) == cs@);
                match rfind_in(&cs, 0, n, '.') {
                    Some(d) => Some(name.substring_char(d + 1, n)),
                    None => None,
                }
            },
            None => None,
        }
    }

    /// The components of the path, in order.
    pub fn components(&self) -> (r: Vec<Component<'a>>)
        ensures
            components_view(r@) == spec_components(self@),
    {
        let cs = chars_of(self.inner);
        let n = cs.len();
        let ghost s = cs@;
        let ghost segs_view = segments(spec_rest(s)).map_values(|g: Seq<char>| segment_component(g));
        let mut out: Vec<Component<'a>> = Vec::new();
        let off = match predicate_colon(&cs) {
            Some(i) => {
                out.push(Component::Predicate(self.inner.substring_char(0, i)));
                i + 1
            },
            None => 0,
        };
        assert(off == rest_start(s));
        let ghost pred_part = components_view(out@);
        let abs = off < n && cs[off] == '/';
        if abs {
            out.push(Component::RootDir);
        }
        let ghost head = components_view(out@);
        assert(head =~= pred_part + if spec_is_absolute(s) {
            seq![ComponentView::RootDir]
        } else {
            Seq::<ComponentView>::empty()
        });
        let mut i = if abs { off + 1 } else { off };
        proof {
            if abs {
                lemma_segments_skip(s, off as int, n as int);
            }
        }
        assert(spec_rest(s) == s.subrange(off as int, n as int));
        assert(components_view(out@) + segments(s.subrange(i as int, n as int)).map_values(
            |g: Seq<char>| segment_component(g),
        ) == spec_components(s));
        while i < n
            invariant
                off <= i <= n,
                n == cs@.len(),
                s == cs@,
                cs@ == self.inner@,
                components_view(out@) + segments(s.subrange(i as int, n as int)).map_values(
                    |g: Seq<char>| segment_component(g),
                ) == spec_components(s),
            decreases n - i,
        {
            if cs[i] == '/' {
                proof {
                    lemma_segments_skip(s, i as int, n as int);
                }
                i = i + 1;
            } else {
                let start = i;
                while i < n && cs[i] != '/'
                    invariant
                        start < n,
                        start <= i <= n,
                        n == cs@.len(),
                        s == cs@,
                        s[start as int] != '/',
                        forall|k: int| start <= k < i ==> s[k] != '/',
                    decreases n - i,
                {
                    i = i + 1;
                }
                proof {
                    lemma_segments_take(s, start as int, i as int, n as int);
                }
                let c = segment_to_component(self.inner, &cs, start, i);
                let ghost before = components_view(out@);
                out.push(c);
                proof {
                    let f = |g: Seq<char>| segment_component(g);
                    let g = s.subrange(start as int, i as int);
                    let tail = segments(s.subrange(i as int, n as int));
                    assert(components_view(out@) =~= before.push(c@));
                    assert((seq![g] + tail).map_values(f) =~= seq![f(g)] + tail.map_values(f));
                    assert(before + (seq![g] + tail).map_values(f) =~= before.push(c@) + tail.map_values(f));
                }
            }
        }
        assert(s.subrange(n as int, n as int) =~= Seq::<char>::empty());
        assert(components_view(out@) + Seq::<ComponentView>::empty() =~= components_view(out@));
        out
    }

    /// An owned path holding `path` adjoined to this one.
    pub fn join(&self, path: Path<'_>) -> (r: PathBuf)
        ensures
            r@ == spec_push(self@, path@),
    {
        let mut buf = PathBuf::from_str(self.inner);
        buf.push(path);
        buf
    }

    /// The canonical, absolute form of the path: the predicate (`root` when
    /// the path has none), a `:`, then the segments of the full path
    /// (relative paths are taken inside the working directory `pwd`) with
    /// `.` and `..` resolved, each preceded by `/`; a path that comes down to
    /// the root gives `pred:/`.
    pub fn canonicalize(&self, root: &str, pwd: Option<&str>) -> (r: Result<PathBuf, Error>)
        ensures
            r is Ok,
            r matches Ok(b) && b@ == spec_canonicalize(self@, root@, pwd_view(pwd)),
    {
        Ok(canonical_form(self.inner, root, pwd))
    }
}

/// The predicate and the normalised segments of the canonical form of `s`
/// (see [`Path::canonicalize`]).
pub fn canonical_parts(s: &str, root: &str, pwd: Option<&str>) -> (r: (String, Vec<String>))
    ensures
        r.0@ == canonical_predicate(s@, root@),
        string_views(r.1@) == normalize(segments(spec_full_path(s@, pwd_view(pwd)))),
{
    let cs = chars_of(s);
    let n = cs.len();
    let colon = predicate_colon(&cs);
    let pred: &str = match colon {
        Some(i) => s.substring_char(0, i),
        None => root,
    };
    let off = rest_offset(&cs);
    let rest: &str = s.substring_char(off, n);
    assert(rest@ == spec_rest(s@));
    let abs = off < n && cs[off] == '/';
    let mut full = String::new();
    if abs {
        full.append(rest);
    } else {
        let cur: &str = match pwd {
            Some(p) => p,
            None => {
                proof {
                    reveal_strlit("");
                }
                ""
            },
        };
        let ccs = chars_of(cur);
        let cn = ccs.len();
        let coff = rest_offset(&ccs);
        if coff == cn {
            full.append(rest);
        } else {
            full.append(cur.substring_char(coff, cn));
            proof {
                reveal_strlit("/");
            }
            full.append("/");
            full.append(rest);
        }
    }
    assert(full@ =~= spec_full_path(s@, pwd_view(pwd)));
    let full_s: &str = full.as_str();
    let fcs = chars_of(full_s);
    let fnn = fcs.len();
    let ghost f = fcs@;
    let mut stack: Vec<(usize, usize)> = Vec::new();
    let ghost mut consumed: Seq<Seq<char>> = Seq::empty();
    let mut i: usize = 0;
    assert(f.subrange(0, fnn as int) =~= f);
    assert(consumed + segments(f.subrange(0, fnn as int)) =~= segments(f));
    while i < fnn
        invariant
            i <= fnn,
            fnn == fcs@.len(),
            f == fcs@,
            f == full_s@,
            forall|k: int| 0 <= k < stack@.len() ==> (#[trigger] stack@[k]).0 <= stack@[k].1 <= fnn,
            ranges_view(f, stack@) == normalize(consumed),
            consumed + segments(f.subrange(i as int, fnn as int)) == segments(f),
        decreases fnn - i,
    {
        if fcs[i] == '/' {
            proof {
                lemma_segments_skip(f, i as int, fnn as int);
            }
            i = i + 1;
        } else {
            let start = i;
            while i < fnn && fcs[i] != '/'
                invariant
                    start < fnn,
                    start <= i <= fnn,
                    fnn == fcs@.len(),
                    f == fcs@,
                    f[start as int] != '/',
                    forall|k: int| start <= k < i ==> f[k] != '/',
                decreases fnn - i,
            {
                i = i + 1;
            }
            proof {
                lemma_segments_take(f, start as int, i as int, fnn as int);
            }
            let ghost g = f.subrange(start as int, i as int);
            let ghost old_view = ranges_view(f, stack@);
            let kind = dot_kind(&fcs, start, i);
            if kind == 1 {
            } else if kind == 2 {
                if stack.len() > 0 {
                    stack.pop();
                    assert(ranges_view(f, stack@) =~= old_view.drop_last());
                }
            } else {
                stack.push((start, i));
                assert(ranges_view(f, stack@) =~= old_view.push(g));
            }
            proof {
                let c2 = consumed.push(g);
                assert(c2.drop_last() =~= consumed);
                assert(c2.last() == g);
                assert(normalize(c2) == norm_step(normalize(consumed), g));
                assert(c2 + segments(f.subrange(i as int, fnn as int)) =~= consumed + (seq![g]
                    + segments(f.subrange(i as int, fnn as int))));
                consumed = c2;
            }
        }
    }
    assert(f.subrange(fnn as int, fnn as int) =~= Seq::<char>::empty());
    assert(consumed + Seq::<Seq<char>>::empty() =~= consumed);
    let ghost kept = ranges_view(f, stack@);
    assert(kept == normalize(segments(f)));
    let mut segs: Vec<String> = Vec::new();
    let mut k: usize = 0;
    while k < stack.len()
        invariant
            k <= stack@.len(),
            f == full_s@,
            fnn == f.len(),
            forall|j: int| 0 <= j < stack@.len() ==> (#[trigger] stack@[j]).0 <= stack@[j].1 <= fnn,
            kept == ranges_view(f, stack@),
            string_views(segs@) == kept.take(k as int),
        decreases stack@.len() - k,
    {
        let (a, b) = stack[k];
        let g = <String as StringExecFns>::from_str(full_s.substring_char(a, b));
        let ghost before = segs@;
        assert(g@ == f.subrange(a as int, b as int));
        assert(kept[k as int] == f.subrange(a as int, b as int));
        segs.push(g);
        proof {
            assert(string_views(segs@) =~= string_views(before).push(g@));
            assert(kept.take(k + 1) =~= kept.take(k as int).push(kept[k as int]));
        }
        k = k + 1;
    }
    assert(kept.take(stack@.len() as int) =~= kept);
    (<String as StringExecFns>::from_str(pred), segs)
}

/// The canonical text with predicate `pred` and segments `segs`.
pub fn canonical_string(pred: &str, segs: &Vec<String>) -> (r: String)
    ensures
        r@ == canonical_text(pred@, string_views(segs@)),
{
    let ghost view = string_views(segs@);
    let mut out = String::new();
    out.append(pred);
    proof {
        reveal_strlit(":");
        reveal_strlit("/");
    }
    out.append(":");
    let ghost head = out@;
    assert(view.take(0) =~= Seq::<Seq<char>>::empty());
    let mut k: usize = 0;
    while k < segs.len()
        invariant
            k <= segs@.len(),
            view == string_views(segs@),
            out@ == head + slash_join(view.take(k as int)),
        decreases segs@.len() - k,
    {
        proof {
            reveal_strlit("/");
        }
        out.append("/");
        out.append(segs[k].as_str());
        proof {
            let t = view.take(k + 1);
            assert(t.drop_last() =~= view.take(k as int));
            assert(t.last() == segs@[k as int]@);
            assert(out@ =~= head + slash_join(t));
        }
        k = k + 1;
    }
    assert(view.take(segs@.len() as int) =~= view);
    if segs.len() == 0 {
        proof {
            reveal_strlit("/");
        }
        out.append("/");
        assert(out@ =~= head + seq!['/']);
    }
    out
}

/// The canonical form of `s` (see [`Path::canonicalize`]).
fn canonical_form(s: &str, root: &str, pwd: Option<&str>) -> (b: PathBuf)
    ensures
        b@ == spec_canonicalize(s@, root@, pwd_view(pwd)),
{
    let (pred, segs) = canonical_parts(s, root, pwd);
    PathBuf { inner: canonical_string(pred.as_str(), &segs) }
}

// ---------------------------------------------------------------------------
// PathBuf.
// ---------------------------------------------------------------------------

/// An owned, mutable path (analogous to `String`).
#[derive(Clone, Debug, PartialEq, Eq, Hash, PartialOrd, Ord)]
pub struct PathBuf {
    inner: String,
}

impl View for PathBuf {
    type V = Seq<char>;

    closed spec fn view(&self) -> Seq<char> {
        self.inner@
    }
}

impl From<String> for PathBuf {
    /// The path that `s` holds.
    fn from(s: String) -> (r: PathBuf) {
        PathBuf { inner: s }
    }
}

impl vstd::std_specs::convert::FromSpecImpl<String> for PathBuf {
    open spec fn obeys_from_spec() -> bool {
        true
    }

    open spec fn from_spec(s: String) -> PathBuf {
        PathBuf::holding(s)
    }
}

impl Default for PathBuf {
    /// The empty path, as `new` gives it.
    fn default() -> (r: PathBuf)
        ensures
            r@ == Seq::<char>::empty(),
    {
        PathBuf::new()
    }
}

impl PathBuf {
    /// The path that holds `s`.
    pub closed spec fn holding(s: String) -> PathBuf {
        PathBuf { inner: s }
    }

    /// The path that holds `s` is `s`.
    pub broadcast proof fn lemma_holding(s: String)
        ensures
            (#[trigger] PathBuf::holding(s))@ == s@,
    {
    }

    /// A new empty path.
    pub fn new() -> (r: PathBuf)
        ensures
            r@ == Seq::<char>::empty(),
    {
        PathBuf { inner: String::new() }
    }

    /// An owned copy of the string `s`.
    pub fn from_str(s: &str) -> (r: PathBuf)
        ensures
            r@ == s@,
    {
        PathBuf { inner: <String as StringExecFns>::from_str(s) }
    }

    /// The path that `s` holds.
    pub fn from_string(s: String) -> (r: PathBuf)
        ensures
            r@ == s@,
    {
        PathBuf { inner: s }
    }

    /// An owned copy of `p`.
    pub fn from_path(p: Path<'_>) -> (r: PathBuf)
        ensures
            r@ == p@,
    {
        PathBuf::from_str(p.inner)
    }

    /// The path as a borrowed `Path`.
    pub fn as_path(&self) -> (p: Path<'_>)
        ensures
            p@ == self@,
    {
        Path { inner: self.inner.as_str() }
    }

    /// The path as a string slice.
    pub fn as_str(&self) -> (r: &str)
        ensures
            r@ == self@,
    {
        self.inner.as_str()
    }

    /// The string the path holds.
    pub fn into_string(self) -> (s: String)
        ensures
            s@ == self@,
    {
        self.inner
    }

    /// Extends the path with `path`; a path with a predicate or a leading
    /// `/` replaces it.
    pub fn push(&mut self, path: Path<'_>)
        ensures
            final(self)@ == spec_push(old(self)@, path@),
    {
        let replaces = path.has_predicate() || {
            let pcs = chars_of(path.inner);
            pcs.len() > 0 && pcs[0] == '/'
        };
        if replaces {
            self.inner = <String as StringExecFns>::from_str(path.inner);
        } else {
            let cs = chars_of(self.inner.as_str());
            let n = cs.len();
            if n > 0 && cs[n - 1] != '/' && cs[n - 1] != ':' {
                proof {
                    reveal_strlit("/");
                }
                self.inner.append("/");
            }
            self.inner.append(path.inner);
        }
    }

    /// Truncates the path to its parent; `false` when it has none.
    pub fn pop(&mut self) -> (r: bool)
        ensures
            r == spec_parent(old(self)@) is Some,
            final(self)@ == match spec_parent(old(self)@) {
                Some(p) => p,
                None => old(self)@,
            },
    {
        let parent = self.as_path().parent();
        match parent {
            Some(p) => {
                let s = <String as StringExecFns>::from_str(p.inner);
                self.inner = s;
                true
            },
            None => false,
        }
    }

    /// Replaces the file name: the path is truncated to its parent and
    /// `file_name` pushed; a single relative name without a parent becomes
    /// `file_name`; a path with neither a parent nor a file name is kept.
    pub fn set_file_name(&mut self, file_name: &str)
        ensures
            final(self)@ == spec_set_file_name(old(self)@, file_name@),
    {
        let named = self.as_path().file_name().is_some();
        if self.pop() {
            self.push(Path::new(file_name));
        } else if named {
            self.inner = <String as StringExecFns>::from_str(file_name);
        }
    }

    /// Replaces the extension of the file name (adds one when it has
    /// none); `false` when there is no file name.
    pub fn set_extension(&mut self, extension: &str) -> (r: bool)
        ensures
            r == spec_file_name(old(self)@) is Some,
            final(self)@ == spec_set_extension(old(self)@, extension@),
    {
        let new_name = match self.as_path().file_name() {
            Some(name) => {
                let cs = chars_of(name);
                let n = cs.len();
                assert(cs@.subrange(0, n as int) == cs@);
                let mut nn = String::new();
                let ghost stem: Seq<char>;
                match rfind_in(&cs, 0, n, '.') {
                    Some(d) => {
                        nn.append(name.substring_char(0, d));
                        proof {
                            stem = name@.subrange(0, d as int);
                        }
                    },
                    None => {
                        nn.append(name);
                        proof {
                            stem = name@;
                        }
                    },
                }
                assert(nn@ =~= stem);
                proof {
                    reveal_strlit(".");
                }
                nn.append(".");
                nn.append(extension);
                assert(nn@ =~= spec_with_extension(name@, extension@));
                Some(nn)
            },
            None => None,
        };
        match new_name {
            Some(nn) => {
                self.set_file_name(nn.as_str());
                true
            },
            None => false,
        }
    }
}

} // verus!
