//! Properties that the path operations keep.

use vstd::prelude::*;
use crate::api::path::{
    is_dot_name, norm_step, normalize, rest_start, segment_len, segments, slash_join,
    canonical_predicate, canonical_tail, spec_canonicalize, spec_full_path, spec_is_absolute, spec_parent, spec_parse_predicate,
    spec_predicate, spec_push, spec_rest, segment_component, spec_component_str, spec_components,
    spec_extension, spec_file_name, spec_set_extension, spec_set_file_name, spec_with_extension,
    trim_trailing, ComponentView,
};
use crate::text::{
    first_index, group_text_lemmas, lacks, last_index, lemma_first_index_append,
    lemma_first_index_none, lemma_last_index_append, lemma_last_index_at, lemma_last_index_none,
};

verus! {

broadcast use group_text_lemmas;

/// The parent of a path is a strictly shorter prefix of it.
pub proof fn lemma_parent_truncates(s: Seq<char>)
    ensures
        spec_parent(s) matches Some(p) ==> p.len() < s.len() && p =~= s.subrange(0, p.len() as int),
{
    let off = rest_start(s);
    let r = spec_rest(s);
    if r.len() == 0 || r == seq!['/'] {
    } else {
        match last_index(r, '/') {
            Some(k) => {
                if k == 0 && r.len() == 1 {
                    assert(r =~= seq!['/']);
                }
            },
            None => {},
        }
    }
}

/// Whether a predicate is kept or supplied as is: non-empty and free of `/`
/// and `:`.
pub open spec fn is_predicate_name(p: Seq<char>) -> bool {
    p.len() > 0 && lacks(p, '/') && lacks(p, ':')
}

/// A single plain component: non-empty and free of `/` and `:`.
pub open spec fn is_plain_name(n: Seq<char>) -> bool {
    n.len() > 0 && lacks(n, '/') && lacks(n, ':')
}

/// The paths that a push of a plain name followed by a pop gives back: those
/// that end in neither `/` nor `:`, a root (`/` or `pred:/`), and a bare
/// predicate.
pub open spec fn pops_back_to(buf: Seq<char>) -> bool {
    ||| buf.len() > 0 && buf.last() != '/' && buf.last() != ':'
    ||| spec_rest(buf) == seq!['/']
    ||| spec_parse_predicate(buf) is Some && spec_rest(buf).len() == 0
}

/// Appending text free of `:` keeps the predicate and extends the rest.
pub proof fn lemma_parse_append(buf: Seq<char>, t: Seq<char>)
    requires
        lacks(t, ':'),
    ensures
        spec_parse_predicate(buf + t) is Some <==> spec_parse_predicate(buf) is Some,
        spec_predicate(buf + t) == spec_predicate(buf),
        rest_start(buf + t) == rest_start(buf),
        0 <= rest_start(buf) <= buf.len(),
        spec_rest(buf + t) =~= spec_rest(buf) + t,
{
    let q = buf + t;
    lemma_first_index_none(t, ':');
    lemma_first_index_append(buf, t, ':');
    match first_index(buf, ':') {
        Some(i) => {
            assert(q.subrange(0, i) =~= buf.subrange(0, i));
            assert(q.subrange(i + 1, q.len() as int) =~= buf.subrange(i + 1, buf.len() as int) + t);
        },
        None => {},
    }
}

/// Pushing a plain name and then popping gives the path back, for the paths
/// that `pops_back_to` admits.
pub proof fn lemma_push_then_pop(buf: Seq<char>, name: Seq<char>)
    requires
        is_plain_name(name),
        pops_back_to(buf),
    ensures
        spec_parent(spec_push(buf, name)) == Some(buf),
{
    lemma_first_index_none(name, ':');
    assert(spec_parse_predicate(name) is None);
    assert(name[0] != '/');
    let adds_sep = buf.len() > 0 && buf.last() != '/' && buf.last() != ':';
    let sep: Seq<char> = if adds_sep { seq!['/'] } else { Seq::empty() };
    let t = sep + name;
    let q = spec_push(buf, name);
    assert(q =~= buf + t);
    assert(lacks(t, ':')) by {
        assert forall|j: int| 0 <= j < t.len() implies t[j] != ':' by {
            if j >= sep.len() {
                assert(t[j] == name[j - sep.len()]);
            }
        }
    }
    lemma_parse_append(buf, t);
    let off = rest_start(buf);
    let rb = spec_rest(buf);
    let rq = spec_rest(q);
    assert(rq =~= (rb + sep) + name);
    lemma_last_index_none(name, '/');
    lemma_last_index_append(rb + sep, name, '/');
    assert(rq.len() >= name.len());
    if rq == seq!['/'] {
        assert(rq[rq.len() - 1] == name[name.len() - 1]);
    }
    if adds_sep {
        lemma_last_index_append(rb, sep, '/');
        assert(last_index(sep, '/') == Some(0int));
        assert(off + rb.len() == buf.len());
        assert(q.subrange(0, buf.len() as int) =~= buf);
    } else if rb == seq!['/'] {
        assert(last_index(rb, '/') == Some(0int));
        lemma_last_index_append(rb, sep, '/');
        assert(rb + sep =~= rb);
        assert(off + 1 == buf.len());
        assert(q.subrange(0, off + 1) =~= buf);
    } else {
        assert(rb.len() == 0);
        assert(rb + sep =~= Seq::<char>::empty());
        assert(off == buf.len());
        assert(q.subrange(0, off) =~= buf);
    }
}

/// Every element is a non-empty run free of `/`.
pub open spec fn is_segment_list(segs: Seq<Seq<char>>) -> bool {
    forall|k: int| 0 <= k < segs.len() ==> (#[trigger] segs[k]).len() > 0 && lacks(segs[k], '/')
}

/// A segment list in normal form: no `.` or `..` left.
pub open spec fn is_normal_list(segs: Seq<Seq<char>>) -> bool {
    is_segment_list(segs) && forall|k: int| 0 <= k < segs.len() ==> !is_dot_name(#[trigger] segs[k])
}

/// The segments of a path are non-empty runs free of `/`.
pub proof fn lemma_segments_shape(r: Seq<char>)
    ensures
        is_segment_list(segments(r)),
    decreases r.len(),
{
    if r.len() == 0 {
    } else if r[0] == '/' {
        lemma_segments_shape(r.drop_first());
    } else {
        let k = segment_len(r);
        lemma_segments_shape(r.subrange(k, r.len() as int));
        let g = r.subrange(0, k);
        assert(lacks(g, '/')) by {
            match first_index(r, '/') {
                Some(f) => { assert(g =~= r.subrange(0, f)); },
                None => {
                    assert forall|j: int| 0 <= j < g.len() implies g[j] != '/' by {
                        assert(g[j] == r[j]);
                    }
                },
            }
        }
        let rest = segments(r.subrange(k, r.len() as int));
        assert forall|j: int| 0 <= j < segments(r).len() implies (#[trigger] segments(r)[j]).len() > 0
            && lacks(segments(r)[j], '/') by {
            if j > 0 {
                assert(segments(r)[j] == rest[j - 1]);
            }
        }
    }
}

/// A segment split at a `/` contributes the segments of both sides.
pub proof fn lemma_segments_concat(x: Seq<char>, y: Seq<char>)
    ensures
        segments(x + seq!['/'] + y) == segments(x) + segments(y),
    decreases x.len(),
{
    let r = x + seq!['/'] + y;
    if x.len() == 0 {
        assert(r.drop_first() =~= y);
        assert(segments(x) =~= Seq::<Seq<char>>::empty());
        assert(segments(x) + segments(y) =~= segments(y));
    } else if x[0] == '/' {
        assert(r[0] == x[0]);
        assert(r.drop_first() =~= x.drop_first() + seq!['/'] + y);
        lemma_segments_concat(x.drop_first(), y);
    } else {
        assert(r[0] == x[0]);
        let t = seq!['/'] + y;
        assert(r =~= x + t);
        lemma_first_index_append(x, t, '/');
        assert(first_index(t, '/') == Some(0int));
        match first_index(x, '/') {
            Some(kx) => {
                assert(r.subrange(0, kx) =~= x.subrange(0, kx));
                assert(r.subrange(kx, r.len() as int) =~= x.subrange(kx, x.len() as int) + seq!['/'] + y);
                lemma_segments_concat(x.subrange(kx, x.len() as int), y);
                assert(segment_len(r) == kx);
                assert(segment_len(x) == kx);
                assert(segments(r) == seq![x.subrange(0, kx)] + segments(x.subrange(kx, x.len() as int) + seq!['/'] + y));
                assert(segments(x) == seq![x.subrange(0, kx)] + segments(x.subrange(kx, x.len() as int)));
                assert(segments(r) =~= segments(x) + segments(y));
            },
            None => {
                assert(r.subrange(0, x.len() as int) =~= x);
                assert(r.subrange(x.len() as int, r.len() as int) =~= t);
                assert(t.drop_first() =~= y);
                assert(t[0] == '/');
                assert(segments(t) == segments(y));
                assert(segment_len(r) == x.len());
                assert(segments(r) == seq![x] + segments(t));
                lemma_first_index_none(x, '/');
                lemma_segments_single(x);
            },
        }
    }
}

/// A non-empty run free of `/` is its own only segment.
pub proof fn lemma_segments_single(g: Seq<char>)
    requires
        g.len() > 0,
        lacks(g, '/'),
    ensures
        segments(g) == seq![g],
{
    lemma_first_index_none(g, '/');
    assert(segment_len(g) == g.len());
    assert(g.subrange(0, g.len() as int) =~= g);
    let e = g.subrange(g.len() as int, g.len() as int);
    assert(e.len() == 0);
    assert(segments(e) =~= Seq::<Seq<char>>::empty());
    assert(segments(g) == seq![g.subrange(0, g.len() as int)] + segments(e));
    assert(seq![g] + Seq::<Seq<char>>::empty() =~= seq![g]);
}

/// Joining segments with `/` and splitting again gives them back.
pub proof fn lemma_segments_slash_join(segs: Seq<Seq<char>>)
    requires
        is_segment_list(segs),
    ensures
        segments(slash_join(segs)) == segs,
    decreases segs.len(),
{
    if segs.len() > 0 {
        let init = segs.drop_last();
        assert(is_segment_list(init)) by {
            assert forall|k: int| 0 <= k < init.len() implies (#[trigger] init[k]).len() > 0 && lacks(init[k], '/') by {
                assert(init[k] == segs[k]);
            }
        }
        lemma_segments_slash_join(init);
        lemma_segments_concat(slash_join(init), segs.last());
        assert(segs.last() == segs[segs.len() - 1]);
        lemma_segments_single(segs.last());
        assert(init + seq![segs.last()] =~= segs);
    } else {
        assert(slash_join(segs) =~= Seq::<char>::empty());
    }
}

/// A non-empty slash join starts with `/`.
pub proof fn lemma_slash_join_head(segs: Seq<Seq<char>>)
    ensures
        segs.len() > 0 ==> slash_join(segs).len() > 0 && slash_join(segs)[0] == '/',
        segs.len() == 0 ==> slash_join(segs) == Seq::<char>::empty(),
    decreases segs.len(),
{
    if segs.len() > 0 {
        lemma_slash_join_head(segs.drop_last());
    }
}

/// Normalising a segment list leaves a normal list.
pub proof fn lemma_normalize_shape(segs: Seq<Seq<char>>)
    requires
        is_segment_list(segs),
    ensures
        is_normal_list(normalize(segs)),
    decreases segs.len(),
{
    if segs.len() > 0 {
        let init = segs.drop_last();
        assert(is_segment_list(init)) by {
            assert forall|k: int| 0 <= k < init.len() implies (#[trigger] init[k]).len() > 0 && lacks(init[k], '/') by {
                assert(init[k] == segs[k]);
            }
        }
        lemma_normalize_shape(init);
        let acc = normalize(init);
        let g = segs.last();
        assert(g == segs[segs.len() - 1]);
        let out = norm_step(acc, g);
        assert forall|k: int| 0 <= k < out.len() implies (#[trigger] out[k]).len() > 0 && lacks(out[k], '/')
            && !is_dot_name(out[k]) by {
            if g == seq!['.'] {
            } else if g == seq!['.', '.'] {
                if acc.len() > 0 {
                    assert(out[k] == acc[k]);
                }
            } else {
                if k < acc.len() {
                    assert(out[k] == acc[k]);
                }
            }
        }
    }
}

/// A normal list is its own normal form.
pub proof fn lemma_normalize_fixed(segs: Seq<Seq<char>>)
    requires
        is_normal_list(segs),
    ensures
        normalize(segs) == segs,
    decreases segs.len(),
{
    if segs.len() > 0 {
        let init = segs.drop_last();
        assert(is_normal_list(init)) by {
            assert forall|k: int| 0 <= k < init.len() implies (#[trigger] init[k]).len() > 0 && lacks(init[k], '/') by {
                assert(init[k] == segs[k]);
            }
            assert forall|k: int| 0 <= k < init.len() implies !is_dot_name(#[trigger] init[k]) by {
                assert(init[k] == segs[k]);
            }
        }
        lemma_normalize_fixed(init);
        assert(segs.last() == segs[segs.len() - 1]);
        assert(!is_dot_name(segs.last()));
        assert(init.push(segs.last()) =~= segs);
    } else {
        assert(normalize(segs) =~= segs);
    }
}


/// The predicate of a path is a valid predicate name.
pub proof fn lemma_predicate_is_name(s: Seq<char>)
    requires
        spec_parse_predicate(s) is Some,
    ensures
        is_predicate_name(canonical_predicate(s, Seq::empty())),
{
    let i = first_index(s, ':')->0;
    assert(lacks(s.subrange(0, i), ':'));
}

/// The canonical form of a path carries the predicate (the path's own, or
/// `root` when a valid predicate name stands for a missing one), its rest is
/// the absolute text of segments in normal form, and it is always absolute.
pub proof fn lemma_canonical_shape(s: Seq<char>, root: Seq<char>, pwd: Seq<char>)
    requires
        spec_parse_predicate(s) is Some || is_predicate_name(root),
    ensures
        ({
            let o = spec_canonicalize(s, root, pwd);
            let kept = normalize(segments(spec_full_path(s, pwd)));
            &&& spec_predicate(o) == Some(canonical_predicate(s, root))
            &&& spec_rest(o) == canonical_tail(kept)
            &&& is_normal_list(kept)
            &&& segments(spec_rest(o)) == kept
            &&& spec_is_absolute(o)
        }),
{
    let pred = canonical_predicate(s, root);
    if spec_parse_predicate(s) is Some {
        lemma_predicate_is_name(s);
    }
    assert(is_predicate_name(pred));
    let kept = normalize(segments(spec_full_path(s, pwd)));
    lemma_segments_shape(spec_full_path(s, pwd));
    lemma_normalize_shape(segments(spec_full_path(s, pwd)));
    let j = canonical_tail(kept);
    let o = spec_canonicalize(s, root, pwd);
    let t = seq![':'] + j;
    assert(o =~= pred + t);
    lemma_first_index_none(pred, ':');
    lemma_first_index_append(pred, t, ':');
    assert(first_index(t, ':') == Some(0int));
    assert(o.subrange(0, pred.len() as int) =~= pred);
    assert(o.subrange(pred.len() + 1int, o.len() as int) =~= j);
    if kept.len() > 0 {
        lemma_segments_slash_join(kept);
        lemma_slash_join_head(kept);
    } else {
        assert(j.drop_first() =~= Seq::<char>::empty());
        assert(segments(j) == segments(j.drop_first()));
    }
}

/// Canonicalising a canonical form in the same context changes nothing.
pub proof fn lemma_canonicalize_idempotent(s: Seq<char>, root: Seq<char>, pwd: Seq<char>)
    requires
        spec_parse_predicate(s) is Some || is_predicate_name(root),
    ensures
        spec_canonicalize(spec_canonicalize(s, root, pwd), root, pwd) == spec_canonicalize(
            s,
            root,
            pwd,
        ),
{
    let o = spec_canonicalize(s, root, pwd);
    let kept = normalize(segments(spec_full_path(s, pwd)));
    lemma_canonical_shape(s, root, pwd);
    let pred = canonical_predicate(s, root);
    assert(canonical_predicate(o, root) == pred);
    assert(spec_full_path(o, pwd) == spec_rest(o));
    lemma_normalize_fixed(kept);
}

/// Pushing a path that is absolute or has a predicate replaces the buffer
/// with it.
pub proof fn lemma_push_replaces(buf: Seq<char>, p: Seq<char>)
    requires
        spec_is_absolute(p) || spec_parse_predicate(p) is Some,
    ensures
        spec_push(buf, p) == p,
{
    if spec_parse_predicate(p) is None {
        assert(spec_rest(p) == p);
    }
}

/// A prefix that reaches past the predicate has the same predicate.
pub proof fn lemma_parse_prefix(s: Seq<char>, m: int)
    requires
        rest_start(s) < m <= s.len(),
    ensures
        rest_start(s.subrange(0, m)) == rest_start(s),
        spec_predicate(s.subrange(0, m)) == spec_predicate(s),
{
    let p = s.subrange(0, m);
    let b = s.subrange(m, s.len() as int);
    assert(p + b =~= s);
    lemma_first_index_append(p, b, ':');
    match first_index(p, ':') {
        Some(i) => {
            assert(p.subrange(0, i) =~= s.subrange(0, i));
        },
        None => {},
    }
}

/// The parent of an absolute path is absolute, with the same predicate.
pub proof fn lemma_parent_keeps_absolute(s: Seq<char>)
    requires
        spec_is_absolute(s),
    ensures
        spec_parent(s) matches Some(p) ==> spec_is_absolute(p) && spec_predicate(p)
            == spec_predicate(s),
{
    let off = rest_start(s);
    let r = spec_rest(s);
    lemma_parent_truncates(s);
    if r.len() == 0 || r == seq!['/'] {
    } else {
        match last_index(r, '/') {
            Some(k) => {
                let m = if k == 0 {
                    off + 1
                } else {
                    off + k
                };
                if k == 0 && r.len() == 1 {
                    assert(r =~= seq!['/']);
                }
                assert(off < m <= s.len());
                lemma_parse_prefix(s, m);
                let p = s.subrange(0, m);
                assert(spec_rest(p) =~= r.subrange(0, m - off));
            },
            None => {
                assert(r[0] == '/');
            },
        }
    }
}

/// A relative path without a predicate, canonicalised inside the working
/// directory `pwd`, gives what the absolute path made of `root`, `:/`, the
/// part of `pwd` after its predicate, `/` and the path gives (in any working
/// directory, since that path is absolute).
pub proof fn lemma_relative_inside_pwd(s: Seq<char>, root: Seq<char>, pwd: Seq<char>, other: Seq<char>)
    requires
        is_predicate_name(root),
        spec_parse_predicate(s) is None,
        !spec_is_absolute(s),
    ensures
        spec_canonicalize(s, root, pwd) == spec_canonicalize(
            root + seq![':', '/'] + spec_rest(pwd) + seq!['/'] + s,
            root,
            other,
        ),
{
    let wr = spec_rest(pwd);
    let body = wr + seq!['/'] + s;
    let tail = seq!['/'] + body;
    let t = seq![':'] + tail;
    let a = root + seq![':', '/'] + wr + seq!['/'] + s;
    assert(a =~= root + t);
    lemma_first_index_none(root, ':');
    lemma_first_index_append(root, t, ':');
    assert(first_index(t, ':') == Some(0int));
    assert(a.subrange(0, root.len() as int) =~= root);
    assert(a.subrange(root.len() + 1int, a.len() as int) =~= tail);
    assert(spec_parse_predicate(a) == Some((root, tail)));
    assert(spec_rest(a) =~= tail);
    assert(spec_full_path(a, other) == tail);
    assert(spec_rest(s) =~= s);
    assert(Seq::<char>::empty() + seq!['/'] + body =~= tail);
    lemma_segments_concat(Seq::<char>::empty(), body);
    assert(segments(Seq::<char>::empty()) =~= Seq::<Seq<char>>::empty());
    lemma_segments_concat(wr, s);
    assert(segments(tail) =~= segments(wr) + segments(s));
    if wr.len() == 0 {
        assert(segments(wr) =~= Seq::<Seq<char>>::empty());
        assert(segments(tail) =~= segments(s));
    }
}

// ---------------------------------------------------------------------------
// File names, extensions and components
// ---------------------------------------------------------------------------

/// The separator that pushing a relative name onto `buf` puts between them.
pub open spec fn push_sep(buf: Seq<char>) -> Seq<char> {
    if buf.len() > 0 && buf.last() != '/' && buf.last() != ':' {
        seq!['/']
    } else {
        Seq::empty()
    }
}

/// Pushing a plain name appends it (after a separator where one is needed),
/// keeping the predicate and extending the part after it.
pub proof fn lemma_push_plain(buf: Seq<char>, name: Seq<char>)
    requires
        is_plain_name(name),
    ensures
        spec_push(buf, name) == buf + push_sep(buf) + name,
        spec_predicate(spec_push(buf, name)) == spec_predicate(buf),
        spec_rest(spec_push(buf, name)) == spec_rest(buf) + push_sep(buf) + name,
        0 <= rest_start(buf) <= buf.len(),
{
    lemma_first_index_none(name, ':');
    assert(spec_parse_predicate(name) is None);
    assert(name[0] != '/');
    let sep = push_sep(buf);
    let t = sep + name;
    assert(spec_push(buf, name) =~= buf + t);
    assert(lacks(t, ':')) by {
        assert forall|j: int| 0 <= j < t.len() implies t[j] != ':' by {
            if j >= sep.len() {
                assert(t[j] == name[j - sep.len()]);
            }
        }
    }
    lemma_parse_append(buf, t);
    assert(spec_rest(buf) + t =~= spec_rest(buf) + sep + name);
    assert(buf + t =~= buf + sep + name);
}

/// A path that ends in `/` has a part after its predicate that ends in `/`.
proof fn lemma_rest_keeps_last_slash(buf: Seq<char>)
    requires
        buf.len() > 0,
        buf.last() == '/',
    ensures
        spec_rest(buf).len() > 0,
        spec_rest(buf).last() == '/',
{
    match first_index(buf, ':') {
        Some(i) => {
            assert(buf[i] == ':');
            assert(i + 1 < buf.len());
        },
        None => {},
    }
}

/// The file name of a path is free of `/`.
pub proof fn lemma_file_name_lacks_slash(s: Seq<char>)
    ensures
        spec_file_name(s) matches Some(n) ==> lacks(n, '/'),
{
    let r = spec_rest(s);
    if !(r.len() == 0 || r == seq!['/']) {
        let t = trim_trailing(r, '/');
        match last_index(t, '/') {
            Some(k) => {},
            None => {},
        }
    }
}

/// Pushing a plain name onto any path that does not end in a `:` other
/// than that of a bare predicate makes it the file name, whatever
/// characters it starts with, unless it is `.` or `..`, which leave none.
pub proof fn lemma_file_name_of_push(buf: Seq<char>, name: Seq<char>)
    requires
        is_plain_name(name),
        pops_back_to(buf) || buf.len() == 0 || buf.last() == '/',
    ensures
        spec_file_name(spec_push(buf, name)) == if is_dot_name(name) {
            None
        } else {
            Some(name)
        },
{
    lemma_push_plain(buf, name);
    let q = spec_push(buf, name);
    let rb = spec_rest(buf);
    let sep = push_sep(buf);
    let rq = spec_rest(q);
    let head = rb + sep;
    assert(rq =~= head + name);
    assert(rq.last() == name.last());
    assert(name.last() != '/');
    assert(trim_trailing(rq, '/') == rq);
    assert(rq != seq!['/']);
    lemma_last_index_none(name, '/');
    lemma_last_index_append(head, name, '/');
    if sep.len() > 0 {
        lemma_last_index_append(rb, sep, '/');
        assert(last_index(sep, '/') == Some(0int));
        assert(last_index(head, '/') == Some(rb.len() as int));
        assert(rq.subrange(head.len() as int, rq.len() as int) =~= name);
    } else if buf.len() > 0 && buf.last() == '/' {
        lemma_rest_keeps_last_slash(buf);
        assert(head =~= rb);
        assert(last_index(head, '/') == Some(rb.len() - 1));
        assert(rq.subrange(head.len() as int, rq.len() as int) =~= name);
    } else {
        assert(rb.len() == 0);
        assert(head =~= Seq::<char>::empty());
        assert(last_index(head, '/') is None);
        assert(rq =~= name);
    }
}

/// Setting the file name of a path with parent `p` (one that a push and a
/// pop give back) to a plain name: the parent stays `p`, the file name
/// becomes the name, and an absolute path stays absolute.
pub proof fn lemma_set_file_name_renames(buf: Seq<char>, name: Seq<char>, p: Seq<char>)
    requires
        is_plain_name(name),
        !is_dot_name(name),
        spec_parent(buf) == Some(p),
        pops_back_to(p),
    ensures
        spec_parent(spec_set_file_name(buf, name)) == Some(p),
        spec_file_name(spec_set_file_name(buf, name)) == Some(name),
        spec_is_absolute(buf) ==> spec_is_absolute(spec_set_file_name(buf, name)),
{
    let r = spec_set_file_name(buf, name);
    assert(r == spec_push(p, name));
    lemma_push_then_pop(p, name);
    lemma_file_name_of_push(p, name);
    lemma_push_plain(p, name);
    if spec_is_absolute(buf) {
        lemma_parent_keeps_absolute(buf);
        let rp = spec_rest(p);
        assert(spec_rest(r) == rp + push_sep(p) + name);
        assert(spec_rest(r)[0] == rp[0]);
    }
}

/// The new file name keeps everything before the last `.` of the old one
/// (the `.` at `d`, with no `.` after it) and puts `ext` after that dot.
pub proof fn lemma_with_extension_at_last_dot(name: Seq<char>, ext: Seq<char>, d: int)
    requires
        0 <= d < name.len(),
        name[d] == '.',
        lacks(name.subrange(d + 1, name.len() as int), '.'),
    ensures
        spec_with_extension(name, ext) == name.subrange(0, d) + seq!['.'] + ext,
{
    assert forall|j: int| d < j < name.len() implies name[j] != '.' by {
        assert(name[j] == name.subrange(d + 1, name.len() as int)[j - d - 1]);
    }
    lemma_last_index_at(name, '.', d);
}

/// A file name without a `.` gets `.` and the extension appended.
pub proof fn lemma_with_extension_no_dot(name: Seq<char>, ext: Seq<char>)
    requires
        lacks(name, '.'),
    ensures
        spec_with_extension(name, ext) == name + seq!['.'] + ext,
{
    lemma_last_index_none(name, '.');
}

/// The extension is the suffix of the file name after its last `.`: when
/// there is one, the file name ends in `.` and the extension, which holds
/// no `.` and no `/`; a file name without a `.` has none, and one with a
/// `.` has one.
pub proof fn lemma_extension_in_file_name(s: Seq<char>)
    ensures
        spec_extension(s) matches Some(e) ==> (spec_file_name(s) matches Some(n) && n.len() >= e.len()
            + 1 && n.subrange(n.len() - e.len() - 1, n.len() as int) == seq!['.'] + e && lacks(e, '.')
            && lacks(e, '/')),
        spec_file_name(s) matches Some(n) ==> (lacks(n, '.') <==> spec_extension(s) is None),
        spec_file_name(s) is None ==> spec_extension(s) is None,
{
    lemma_file_name_lacks_slash(s);
    match spec_file_name(s) {
        Some(n) => {
            match last_index(n, '.') {
                Some(d) => {
                    let e = n.subrange(d + 1, n.len() as int);
                    assert(n.subrange(n.len() - e.len() - 1, n.len() as int) =~= seq!['.'] + e);
                    assert forall|j: int| 0 <= j < e.len() implies e[j] != '/' by {
                        assert(e[j] == n[d + 1 + j]);
                    }
                    assert(!lacks(n, '.'));
                },
                None => {},
            }
        },
        None => {},
    }
}

/// Setting the extension of a path whose parent `p` a push and a pop give
/// back, and whose file name holds no `:`, to a non-empty `ext` free of
/// `.`, `/` and `:`: the parent stays, and the extension is then `ext`.
#[verifier::spinoff_prover]
pub proof fn lemma_set_extension_then_extension(buf: Seq<char>, ext: Seq<char>, p: Seq<char>)
    requires
        spec_parent(buf) == Some(p),
        pops_back_to(p),
        spec_file_name(buf) matches Some(n) && lacks(n, ':'),
        ext.len() > 0,
        lacks(ext, '.'),
        lacks(ext, '/'),
        lacks(ext, ':'),
    ensures
        spec_parent(spec_set_extension(buf, ext)) == Some(p),
        spec_file_name(spec_set_extension(buf, ext)) == Some(spec_with_extension(spec_file_name(buf)->0, ext)),
        spec_extension(spec_set_extension(buf, ext)) == Some(ext),
{
    let n = spec_file_name(buf)->0;
    lemma_file_name_lacks_slash(buf);
    let stem = match last_index(n, '.') {
        Some(d) => n.subrange(0, d),
        None => n,
    };
    let nn = stem + seq!['.'] + ext;
    assert(spec_with_extension(n, ext) == nn);
    assert(lacks(stem, '/') && lacks(stem, ':')) by {
        assert forall|j: int| 0 <= j < stem.len() implies stem[j] != '/' && stem[j] != ':' by {
            assert(stem[j] == n[j]);
        }
    }
    assert(is_plain_name(nn)) by {
        assert forall|j: int| 0 <= j < nn.len() implies nn[j] != '/' && nn[j] != ':' by {
            if j < stem.len() {
                assert(nn[j] == stem[j]);
            } else if j > stem.len() {
                assert(nn[j] == ext[j - stem.len() - 1]);
            }
        }
    }
    assert(nn.last() == ext.last());
    assert(!is_dot_name(nn)) by {
        if is_dot_name(nn) {
            assert(nn.last() == '.');
        }
    }
    assert(spec_set_extension(buf, ext) == spec_set_file_name(buf, nn));
    lemma_set_file_name_renames(buf, nn, p);
    lemma_last_index_none(ext, '.');
    lemma_last_index_append(stem + seq!['.'], ext, '.');
    lemma_last_index_append(stem, seq!['.'], '.');
    assert(last_index(seq!['.'], '.') == Some(0int));
    assert(nn.subrange(stem.len() + 1int, nn.len() as int) =~= ext);
}

/// Each segment stands for a component whose text is the segment itself;
/// only `.` stands for the current directory and only `..` for the parent.
pub proof fn lemma_segment_component_text(g: Seq<char>)
    ensures
        spec_component_str(segment_component(g)) == g,
        segment_component(g) == ComponentView::CurDir <==> g == seq!['.'],
        segment_component(g) == ComponentView::ParentDir <==> g == seq!['.', '.'],
        !(segment_component(g) is Predicate) && !(segment_component(g) is RootDir),
{
    if g == seq!['.', '.'] {
        assert(g.len() == 2);
        assert(g != seq!['.']);
    }
    if g == seq!['.'] {
        assert(g.len() == 1);
        assert(g != seq!['.', '.']);
    }
}

/// The components of a path: its predicate first when it has one, then a
/// root when it is absolute, then, in order, one component per segment of
/// the path, whose text is the segment; each is the current or parent
/// directory exactly when its segment is `.` or `..`.
pub proof fn lemma_components_follow_segments(s: Seq<char>)
    ensures
        ({
            let cs = spec_components(s);
            let segs = segments(spec_rest(s));
            let k = cs.len() - segs.len();
            &&& k == (if spec_predicate(s) is Some { 1int } else { 0int }) + (if spec_is_absolute(s) {
                1int
            } else {
                0int
            })
            &&& spec_predicate(s) matches Some(p) ==> cs[0] == ComponentView::Predicate(p)
            &&& spec_is_absolute(s) ==> cs[k - 1] == ComponentView::RootDir
            &&& forall|i: int| 0 <= i < segs.len() ==> {
                &&& spec_component_str(#[trigger] cs[k + i]) == segs[i]
                &&& cs[k + i] == ComponentView::CurDir <==> segs[i] == seq!['.']
                &&& cs[k + i] == ComponentView::ParentDir <==> segs[i] == seq!['.', '.']
            }
        }),
{
    let cs = spec_components(s);
    let segs = segments(spec_rest(s));
    let k = cs.len() - segs.len();
    assert forall|i: int| 0 <= i < segs.len() implies {
        &&& spec_component_str(#[trigger] cs[k + i]) == segs[i]
        &&& cs[k + i] == ComponentView::CurDir <==> segs[i] == seq!['.']
        &&& cs[k + i] == ComponentView::ParentDir <==> segs[i] == seq!['.', '.']
    } by {
        assert(cs[k + i] == segment_component(segs[i]));
        lemma_segment_component_text(segs[i]);
    }
}

/// Slashes after the last segment do not change the file name.
pub proof fn lemma_file_name_ignores_trailing_slash(s: Seq<char>)
    requires
        spec_rest(s).len() > 0,
        spec_rest(s) != seq!['/'],
    ensures
        spec_file_name(s + seq!['/']) == spec_file_name(s),
{
    let slash = seq!['/'];
    assert(lacks(slash, ':'));
    lemma_parse_append(s, slash);
    let r = spec_rest(s);
    let r2 = spec_rest(s + slash);
    assert(r2 =~= r + slash);
    assert(r2.drop_last() =~= r);
    assert(trim_trailing(r2, '/') == trim_trailing(r, '/'));
    assert(r2 != seq!['/']) by {
        if r2 == seq!['/'] {
            assert(r2.len() == 1);
        }
    }
}

/// A path without a parent but with a file name (a single relative name)
/// gets a plain name that is neither `.` nor `..` as its whole text: its
/// file name is then that name, and it still has no parent.
pub proof fn lemma_set_file_name_without_parent(buf: Seq<char>, name: Seq<char>)
    requires
        is_plain_name(name),
        !is_dot_name(name),
        spec_parent(buf) is None,
        spec_file_name(buf) is Some,
    ensures
        spec_file_name(spec_set_file_name(buf, name)) == Some(name),
        spec_parent(spec_set_file_name(buf, name)) is None,
{
    lemma_file_name_of_push(Seq::empty(), name);
    lemma_push_plain(Seq::empty(), name);
    assert(spec_push(Seq::<char>::empty(), name) =~= name);
    lemma_first_index_none(name, ':');
    lemma_last_index_none(name, '/');
    assert(spec_rest(name) =~= name);
}

/// A path without a file name is left as it is by `set_extension`.
pub proof fn lemma_set_extension_needs_file_name(buf: Seq<char>, ext: Seq<char>)
    requires
        spec_file_name(buf) is None,
    ensures
        spec_set_extension(buf, ext) == buf,
{
}

} // verus!
