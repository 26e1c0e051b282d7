//! Character-sequence helpers shared by the path and file-system modules.

use vstd::prelude::*;

verus! {

/// Index of the first occurrence of `c` in `s`.
pub open spec fn first_index(s: Seq<char>, c: char) -> Option<int>
    decreases s.len(),
{
    if s.len() == 0 {
        None
    } else if s[0] == c {
        Some(0)
    } else {
        match first_index(s.drop_first(), c) {
            Some(i) => Some(i + 1),
            None => None,
        }
    }
}

/// Index of the last occurrence of `c` in `s`.
pub open spec fn last_index(s: Seq<char>, c: char) -> Option<int>
    decreases s.len(),
{
    if s.len() == 0 {
        None
    } else if s.last() == c {
        Some(s.len() - 1)
    } else {
        last_index(s.drop_last(), c)
    }
}

/// `c` does not occur in `s`.
pub open spec fn lacks(s: Seq<char>, c: char) -> bool {
    forall|j: int| 0 <= j < s.len() ==> s[j] != c
}

/// An `Option<usize>` read as an optional mathematical index.
pub open spec fn opt_index(o: Option<usize>) -> Option<int> {
    match o {
        Some(i) => Some(i as int),
        None => None,
    }
}

pub broadcast proof fn lemma_first_index(s: Seq<char>, c: char)
    ensures
        match #[trigger] first_index(s, c) {
            Some(i) => 0 <= i < s.len() && s[i] == c && lacks(s.subrange(0, i), c),
            None => lacks(s, c),
        },
    decreases s.len(),
{
    if s.len() > 0 && s[0] != c {
        lemma_first_index(s.drop_first(), c);
        match first_index(s.drop_first(), c) {
            Some(i) => {
                assert forall|j: int| 0 <= j < i + 1 implies #[trigger] s.subrange(0, i + 1)[j] != c by {
                    if j > 0 {
                        assert(s.subrange(0, i + 1)[j] == s.drop_first().subrange(0, i)[j - 1]);
                    }
                }
            },
            None => {
                assert forall|j: int| 0 <= j < s.len() implies s[j] != c by {
                    if j > 0 {
                        assert(s[j] == s.drop_first()[j - 1]);
                    }
                }
            },
        }
    }
}

pub broadcast proof fn lemma_last_index(s: Seq<char>, c: char)
    ensures
        match #[trigger] last_index(s, c) {
            Some(i) => 0 <= i < s.len() && s[i] == c && lacks(s.subrange(i + 1, s.len() as int), c),
            None => lacks(s, c),
        },
    decreases s.len(),
{
    if s.len() > 0 && s.last() != c {
        lemma_last_index(s.drop_last(), c);
        match last_index(s.drop_last(), c) {
            Some(i) => {
                assert forall|j: int| 0 <= j < s.len() - (i + 1) implies #[trigger] s.subrange(i + 1, s.len() as int)[j] != c by {
                    if j < s.len() - (i + 1) - 1 {
                        assert(s.subrange(i + 1, s.len() as int)[j] == s.drop_last().subrange(i + 1, s.len() - 1)[j]);
                    }
                }
            },
            None => {
                assert forall|j: int| 0 <= j < s.len() implies s[j] != c by {
                    if j < s.len() - 1 {
                        assert(s[j] == s.drop_last()[j]);
                    }
                }
            },
        }
    }
}

/// The first occurrence is the position before which `c` does not occur.
pub proof fn lemma_first_index_at(s: Seq<char>, c: char, k: int)
    requires
        0 <= k < s.len(),
        s[k] == c,
        forall|j: int| 0 <= j < k ==> s[j] != c,
    ensures
        first_index(s, c) == Some(k),
    decreases k,
{
    if k > 0 {
        assert forall|j: int| 0 <= j < k - 1 implies s.drop_first()[j] != c by {
            assert(s.drop_first()[j] == s[j + 1]);
        }
        lemma_first_index_at(s.drop_first(), c, k - 1);
    }
}

/// A character that does not occur has no first occurrence.
pub proof fn lemma_first_index_none(s: Seq<char>, c: char)
    requires
        lacks(s, c),
    ensures
        first_index(s, c) is None,
    decreases s.len(),
{
    if s.len() > 0 {
        assert forall|j: int| 0 <= j < s.len() - 1 implies s.drop_first()[j] != c by {
            assert(s.drop_first()[j] == s[j + 1]);
        }
        lemma_first_index_none(s.drop_first(), c);
    }
}

/// The last occurrence is the position after which `c` does not occur.
pub proof fn lemma_last_index_at(s: Seq<char>, c: char, k: int)
    requires
        0 <= k < s.len(),
        s[k] == c,
        forall|j: int| k < j < s.len() ==> s[j] != c,
    ensures
        last_index(s, c) == Some(k),
    decreases s.len(),
{
    if k < s.len() - 1 {
        lemma_last_index_at(s.drop_last(), c, k);
    }
}

/// A character that does not occur has no last occurrence.
pub proof fn lemma_last_index_none(s: Seq<char>, c: char)
    requires
        lacks(s, c),
    ensures
        last_index(s, c) is None,
    decreases s.len(),
{
    if s.len() > 0 {
        lemma_last_index_none(s.drop_last(), c);
    }
}

/// The first occurrence in a concatenation.
pub proof fn lemma_first_index_append(a: Seq<char>, b: Seq<char>, c: char)
    ensures
        first_index(a + b, c) == match first_index(a, c) {
            Some(i) => Some(i),
            None => match first_index(b, c) {
                Some(j) => Some(a.len() + j),
                None => None,
            },
        },
    decreases a.len(),
{
    if a.len() > 0 {
        assert((a + b).drop_first() =~= a.drop_first() + b);
        assert((a + b)[0] == a[0]);
        lemma_first_index_append(a.drop_first(), b, c);
    } else {
        assert(a + b =~= b);
    }
}

/// The last occurrence in a concatenation.
pub proof fn lemma_last_index_append(a: Seq<char>, b: Seq<char>, c: char)
    ensures
        last_index(a + b, c) == match last_index(b, c) {
            Some(j) => Some(a.len() + j),
            None => last_index(a, c),
        },
    decreases b.len(),
{
    if b.len() > 0 {
        assert((a + b).drop_last() =~= a + b.drop_last());
        assert((a + b).last() == b.last());
        lemma_last_index_append(a, b.drop_last(), c);
    } else {
        assert(a + b =~= a);
    }
}

pub broadcast group group_text_lemmas {
    lemma_first_index,
    lemma_last_index,
}

/// The characters of a string slice, in order.
pub fn chars_of(s: &str) -> (v: Vec<char>)
    ensures
        v@ == s@,
{
    let mut v: Vec<char> = Vec::new();
    for c in it: s.chars()
        invariant
            v@ == it.seq().take(it.index() as int),
            it.seq() == s@,
    {
        v.push(c);
    }
    v
}

/// First position of `c` in `cs[lo..hi]`, relative to `lo`.
pub fn find_in(cs: &Vec<char>, lo: usize, hi: usize, c: char) -> (r: Option<usize>)
    requires
        lo <= hi <= cs@.len(),
    ensures
        opt_index(r) == first_index(cs@.subrange(lo as int, hi as int), c),
{
    let ghost s = cs@.subrange(lo as int, hi as int);
    let mut i = lo;
    while i < hi
        invariant
            lo <= i <= hi <= cs@.len(),
            s == cs@.subrange(lo as int, hi as int),
            forall|j: int| lo <= j < i ==> cs@[j] != c,
        decreases hi - i,
    {
        if cs[i] == c {
            let k = i - lo;
            proof {
                assert forall|j: int| 0 <= j < k implies s[j] != c by {
                    assert(s[j] == cs@[lo + j]);
                }
                lemma_first_index_at(s, c, k as int);
            }
            return Some(k);
        }
        i = i + 1;
    }
    proof {
        assert forall|j: int| 0 <= j < s.len() implies s[j] != c by {
            assert(s[j] == cs@[lo + j]);
        }
        lemma_first_index_none(s, c);
    }
    None
}

/// Last position of `c` in `cs[lo..hi]`, relative to `lo`.
pub fn rfind_in(cs: &Vec<char>, lo: usize, hi: usize, c: char) -> (r: Option<usize>)
    requires
        lo <= hi <= cs@.len(),
    ensures
        opt_index(r) == last_index(cs@.subrange(lo as int, hi as int), c),
{
    let ghost s = cs@.subrange(lo as int, hi as int);
    let mut i = hi;
    while i > lo
        invariant
            lo <= i <= hi <= cs@.len(),
            s == cs@.subrange(lo as int, hi as int),
            forall|j: int| i <= j < hi ==> cs@[j] != c,
        decreases i - lo,
    {
        if cs[i - 1] == c {
            let k = i - 1 - lo;
            proof {
                assert forall|j: int| k < j < s.len() implies s[j] != c by {
                    assert(s[j] == cs@[lo + j]);
                }
                lemma_last_index_at(s, c, k as int);
            }
            return Some(k);
        }
        i = i - 1;
    }
    proof {
        assert forall|j: int| 0 <= j < s.len() implies s[j] != c by {
            assert(s[j] == cs@[lo + j]);
        }
        lemma_last_index_none(s, c);
    }
    None
}


/// A name for the text that `String::from_utf8_lossy` makes of `bytes`: each
/// maximal invalid subpart, as std defines it, becomes one U+FFFD (so the
/// bytes 0xFF 0xFF give two).
pub uninterp spec fn utf8_lossy(bytes: Seq<u8>) -> Seq<char>;

/// The text that lossy decoding makes of `bytes`: their characters when
/// they are valid UTF-8, else what `utf8_lossy` names.
pub open spec fn decoded(bytes: Seq<u8>) -> Seq<char> {
    if vstd::utf8::valid_utf8(bytes) {
        vstd::utf8::decode_utf8(bytes)
    } else {
        utf8_lossy(bytes)
    }
}

/// Decodes `bytes` as UTF-8 with `String::from_utf8_lossy`. Its result is
/// named `utf8_lossy`; std documents that valid UTF-8 decodes unchanged,
/// which is the one fact stated of it.
#[verifier::external_body]
pub(crate) fn lossy_string(bytes: &[u8]) -> (s: String)
    ensures
        s@ == utf8_lossy(bytes@),
        vstd::utf8::valid_utf8(bytes@) ==> s@ == vstd::utf8::decode_utf8(bytes@),
{
    String::from_utf8_lossy(bytes).into_owned()
}

} // verus!
