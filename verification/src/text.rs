//! Small verified helpers on character sequences.
//!
//! Every string of this crate is reasoned about through its view, a
//! `Seq<char>`. The executable helpers below scan a string once into a
//! `Vec<char>` and work on that.

use vstd::prelude::*;
use vstd::string::*;

verus! {

/// The view of an optional string.
pub open spec fn opt_view(s: Option<String>) -> Option<Seq<char>> {
    match s {
        Some(t) => Some(t@),
        None => None,
    }
}

/// `needle` occurs at the very start of `hay`.
pub open spec fn is_prefix(needle: Seq<char>, hay: Seq<char>) -> bool {
    needle.len() <= hay.len() && hay.subrange(0, needle.len() as int) == needle
}

/// `hay` with a leading `prefix` replaced by `replacement`; `hay` itself where
/// it does not start with `prefix`.
pub open spec fn replace_prefix(hay: Seq<char>, prefix: Seq<char>, replacement: Seq<char>) -> Seq<
    char,
> {
    if is_prefix(prefix, hay) {
        replacement + hay.subrange(prefix.len() as int, hay.len() as int)
    } else {
        hay
    }
}

/// `i` is the position of the first `c` in `s`.
pub open spec fn is_first_index(s: Seq<char>, c: char, i: int) -> bool {
    &&& 0 <= i < s.len()
    &&& s[i] == c
    &&& forall|j: int| 0 <= j < i ==> s[j] != c
}

/// A prefix relation is decided by length once both strings are prefixes of a
/// common third one.
pub proof fn lemma_prefixes_of_same(a: Seq<char>, b: Seq<char>, hay: Seq<char>)
    requires
        is_prefix(a, hay),
        is_prefix(b, hay),
        a.len() <= b.len(),
    ensures
        is_prefix(a, b),
        a.len() == b.len() ==> a == b,
{
    assert(b.subrange(0, a.len() as int) =~= a) by {
        assert forall|i: int| 0 <= i < a.len() implies b[i] == a[i] by {
            assert(hay.subrange(0, b.len() as int)[i] == b[i]);
            assert(hay.subrange(0, a.len() as int)[i] == a[i]);
        }
    }
    if a.len() == b.len() {
        assert(b.subrange(0, a.len() as int) =~= b);
    }
}

/// Prefixes compose.
pub proof fn lemma_prefix_transitive(a: Seq<char>, b: Seq<char>, c: Seq<char>)
    requires
        is_prefix(a, b),
        is_prefix(b, c),
    ensures
        is_prefix(a, c),
{
    assert(c.subrange(0, a.len() as int) =~= a) by {
        assert forall|i: int| 0 <= i < a.len() implies c[i] == a[i] by {
            assert(c.subrange(0, b.len() as int)[i] == b[i]);
            assert(b.subrange(0, a.len() as int)[i] == a[i]);
        }
    }
}

/// The characters of a string slice, in order.
pub fn to_chars(s: &str) -> (v: Vec<char>)
    ensures
        v@ == s@,
{
    let mut v: Vec<char> = Vec::new();
    for c in it: s.chars()
        invariant
            v@ == it.seq().take(it.index() as int),
            it.seq() == s@,
    {
        v.push(c);
    }
    v
}

/// Decides whether two character vectors hold the same text.
pub fn chars_eq(a: &Vec<char>, b: &Vec<char>) -> (same: bool)
    ensures
        same == (a@ == b@),
{
    if a.len() != b.len() {
        return false;
    }
    let mut i: usize = 0;
    while i < a.len()
        invariant
            i <= a.len(),
            a.len() == b.len(),
            forall|j: int| 0 <= j < i ==> a@[j] == b@[j],
        decreases a.len() - i,
    {
        if a[i] != b[i] {
            return false;
        }
        i += 1;
    }
    assert(a@ =~= b@);
    true
}

/// Decides whether two string slices hold the same text.
pub fn str_eq(a: &str, b: &str) -> (same: bool)
    ensures
        same == (a@ == b@),
{
    let x = to_chars(a);
    let y = to_chars(b);
    chars_eq(&x, &y)
}

/// Decides whether `needle` is a prefix of `hay`.
pub fn starts_with(hay: &Vec<char>, needle: &Vec<char>) -> (yes: bool)
    ensures
        yes == is_prefix(needle@, hay@),
{
    if needle.len() > hay.len() {
        return false;
    }
    let mut i: usize = 0;
    while i < needle.len()
        invariant
            i <= needle.len() <= hay.len(),
            forall|j: int| 0 <= j < i ==> hay@[j] == needle@[j],
        decreases needle.len() - i,
    {
        if hay[i] != needle[i] {
            assert(hay@.subrange(0, needle.len() as int)[i as int] != needle@[i as int]);
            return false;
        }
        i += 1;
    }
    assert(hay@.subrange(0, needle.len() as int) =~= needle@);
    true
}

/// Decides whether `needle` followed by the single character `sep` is a
/// prefix of `hay`.
pub fn starts_with_then(hay: &Vec<char>, needle: &Vec<char>, sep: char) -> (yes: bool)
    ensures
        yes == is_prefix(needle@.push(sep), hay@),
{
    if needle.len() >= hay.len() {
        return false;
    }
    let head = starts_with(hay, needle);
    let ghost want = needle@.push(sep);
    if head && hay[needle.len()] == sep {
        assert(hay@.subrange(0, want.len() as int) =~= want) by {
            assert forall|j: int| 0 <= j < want.len() implies hay@[j] == want[j] by {
                if j < needle.len() {
                    assert(hay@.subrange(0, needle.len() as int)[j] == needle@[j]);
                }
            }
        }
        true
    } else {
        proof {
            if is_prefix(want, hay@) {
                assert(hay@.subrange(0, want.len() as int)[needle.len() as int] == sep);
                assert(hay@.subrange(0, needle.len() as int) =~= needle@) by {
                    assert forall|j: int| 0 <= j < needle.len() implies hay@[j] == needle@[j] by {
                        assert(hay@.subrange(0, want.len() as int)[j] == want[j]);
                    }
                }
            }
        }
        false
    }
}

/// Finds the first occurrence of `c` in `s`.
pub fn find_char(s: &Vec<char>, c: char) -> (at: Option<usize>)
    ensures
        match at {
            Some(i) => is_first_index(s@, c, i as int),
            None => !s@.contains(c),
        },
{
    let mut i: usize = 0;
    while i < s.len()
        invariant
            i <= s.len(),
            forall|j: int| 0 <= j < i ==> s@[j] != c,
        decreases s.len() - i,
    {
        if s[i] == c {
            return Some(i);
        }
        i += 1;
    }
    None
}

/// Replaces a leading `prefix` of `hay` by `replacement`.
pub fn replace_leading(hay: &str, prefix: &str, replacement: &str) -> (out: String)
    ensures
        out@ == replace_prefix(hay@, prefix@, replacement@),
{
    let h = to_chars(hay);
    let p = to_chars(prefix);
    if starts_with(&h, &p) {
        let rest = hay.substring_char(p.len(), h.len());
        let mut out = String::from_str(replacement);
        out.append(rest);
        out
    } else {
        String::from_str(hay)
    }
}

} // verus!
