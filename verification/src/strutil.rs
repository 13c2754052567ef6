//! Verified string helpers: equality, substring search, and whitespace
//! trimming over `&str`, with their meanings stated on `Seq<char>` views.

use vstd::prelude::*;
use vstd::string::StrSliceExecFns;

verus! {

/// The characters trimmed from the ends of a fetched version string.
pub open spec fn is_space(c: char) -> bool {
    c == ' ' || c == '\t' || c == '\r' || c == '\n'
}

/// `needle` occurs in `hay` starting at position `i`.
pub open spec fn match_at_spec(hay: Seq<char>, needle: Seq<char>, i: int) -> bool {
    0 <= i && i + needle.len() <= hay.len() && hay.subrange(i, i + needle.len() as int) == needle
}

/// `needle` occurs somewhere in `hay`.
pub open spec fn has_substring(hay: Seq<char>, needle: Seq<char>) -> bool {
    exists|i: int| match_at_spec(hay, needle, i)
}

/// `s` with leading and trailing whitespace removed.
pub open spec fn trimmed(s: Seq<char>) -> Seq<char>
    decreases s.len(),
{
    if s.len() == 0 {
        s
    } else if is_space(s.first()) {
        trimmed(s.drop_first())
    } else if is_space(s.last()) {
        trimmed(s.drop_last())
    } else {
        s
    }
}

/// Exec mirror of `is_space`.
pub fn is_space_char(c: char) -> (r: bool)
    ensures
        r == is_space(c),
{
    c == ' ' || c == '\t' || c == '\r' || c == '\n'
}

/// Character-for-character string equality.
pub fn str_eq(a: &str, b: &str) -> (r: bool)
    ensures
        r == (a@ == b@),
{
    let alen = a.unicode_len();
    let blen = b.unicode_len();
    if alen != blen {
        return false;
    }
    let mut i: usize = 0;
    while i < alen
        invariant
            a@.len() == alen,
            b@.len() == blen,
            alen == blen,
            i <= alen,
            forall|j: int| 0 <= j < i ==> a@[j] == b@[j],
        decreases alen - i,
    {
        if a.get_char(i) != b.get_char(i) {
            return false;
        }
        i += 1;
    }
    proof {
        assert(a@ =~= b@);
    }
    true
}

/// Whether `needle` occurs in `hay` starting exactly at `i`.
fn matches_at(hay: &str, needle: &str, i: usize) -> (r: bool)
    requires
        i + needle@.len() <= hay@.len(),
    ensures
        r == match_at_spec(hay@, needle@, i as int),
{
    let hlen = hay.unicode_len();
    let nlen = needle.unicode_len();
    let mut j: usize = 0;
    while j < nlen
        invariant
            hay@.len() == hlen,
            i + nlen <= hay@.len(),
            needle@.len() == nlen,
            j <= nlen,
            forall|k: int| 0 <= k < j ==> hay@[i + k] == needle@[k],
        decreases nlen - j,
    {
        if hay.get_char(i + j) != needle.get_char(j) {
            proof {
                assert(hay@.subrange(i as int, i + needle@.len() as int)[j as int] == hay@[i + j]);
            }
            return false;
        }
        j += 1;
    }
    proof {
        assert(hay@.subrange(i as int, i + needle@.len() as int) =~= needle@);
    }
    true
}

/// Substring search.
pub fn str_contains(hay: &str, needle: &str) -> (r: bool)
    ensures
        r == has_substring(hay@, needle@),
{
    let hlen = hay.unicode_len();
    let nlen = needle.unicode_len();
    if nlen > hlen {
        return false;
    }
    if nlen == 0 {
        proof {
            assert(hay@.subrange(0, 0) =~= needle@);
            assert(match_at_spec(hay@, needle@, 0));
        }
        return true;
    }
    let mut i: usize = 0;
    while i <= hlen - nlen
        invariant
            1 <= nlen <= hlen,
            hay@.len() == hlen,
            needle@.len() == nlen,
            i <= hlen - nlen + 1,
            forall|k: int| 0 <= k < i ==> !match_at_spec(hay@, needle@, k),
        decreases hlen - nlen - i + 1,
    {
        if matches_at(hay, needle, i) {
            return true;
        }
        i += 1;
    }
    false
}

/// Whether one of `names` equals `target`.
pub fn contains_string(names: &Vec<String>, target: &str) -> (r: bool)
    ensures
        r == names@.map_values(|n: String| n@).contains(target@),
{
    let mut i: usize = 0;
    while i < names.len()
        invariant
            i <= names.len(),
            forall|j: int| 0 <= j < i ==> names@[j]@ != target@,
        decreases names.len() - i,
    {
        if str_eq(names[i].as_str(), target) {
            proof {
                assert(names@.map_values(|n: String| n@)[i as int] == target@);
            }
            return true;
        }
        i += 1;
    }
    proof {
        let mapped = names@.map_values(|n: String| n@);
        assert forall|k: int| 0 <= k < mapped.len() implies mapped[k] != target@ by {
            assert(mapped[k] == names@[k]@);
        }
    }
    false
}

/// Induction step: trimming a sequence whose whitespace margins are exactly
/// `[0, start)` and `[end, len)` yields the slice between them.
proof fn lemma_trimmed_is_subrange(s: Seq<char>, start: int, end: int)
    requires
        0 <= start <= end <= s.len(),
        forall|k: int| 0 <= k < start ==> is_space(#[trigger] s[k]),
        forall|k: int| end <= k < s.len() ==> is_space(#[trigger] s[k]),
        start == end || (!is_space(s[start]) && !is_space(s[end - 1])),
    ensures
        trimmed(s) == s.subrange(start, end),
    decreases s.len(),
{
    if s.len() == 0 {
        assert(trimmed(s) =~= s.subrange(start, end));
    } else if start > 0 {
        assert(is_space(s.first()));
        lemma_trimmed_is_subrange(s.drop_first(), start - 1, end - 1);
        assert(s.drop_first().subrange(start - 1, end - 1) =~= s.subrange(start, end));
    } else if start == end && end < s.len() {
        // the whole sequence is whitespace
        assert(is_space(s.last()));
        if s.len() == 1 {
            assert(trimmed(s) == trimmed(s.drop_first()));
            assert(trimmed(s) =~= s.subrange(start, end));
        } else {
            assert(is_space(s.first()));
            lemma_trimmed_is_subrange(s.drop_first(), 0, 0);
            assert(s.drop_first().subrange(0, 0) =~= s.subrange(start, end));
        }
    } else if end < s.len() {
        assert(is_space(s.last()));
        assert(!is_space(s.first()));
        lemma_trimmed_is_subrange(s.drop_last(), start, end);
        assert(s.drop_last().subrange(start, end) =~= s.subrange(start, end));
    } else {
        assert(!is_space(s.first()));
        assert(!is_space(s.last()));
        assert(trimmed(s) == s);
        assert(s.subrange(start, end) =~= s);
    }
}

/// Remove leading and trailing whitespace.
pub fn trim_str(s: &str) -> (r: String)
    ensures
        r@ == trimmed(s@),
{
    let len = s.unicode_len();
    let mut start: usize = 0;
    while start < len && is_space_char(s.get_char(start))
        invariant
            s@.len() == len,
            start <= len,
            forall|k: int| 0 <= k < start ==> is_space(#[trigger] s@[k]),
        decreases len - start,
    {
        start += 1;
    }
    let mut end: usize = len;
    while end > start && is_space_char(s.get_char(end - 1))
        invariant
            s@.len() == len,
            start <= end <= len,
            forall|k: int| end <= k < len ==> is_space(#[trigger] s@[k]),
            start < len ==> !is_space(s@[start as int]),
        decreases end,
    {
        end -= 1;
    }
    proof {
        lemma_trimmed_is_subrange(s@, start as int, end as int);
    }
    let piece = s.substring_char(start, end);
    piece.to_owned()
}

} // verus!
