//! Substring, prefix and suffix tests on strings, specified over `Seq<char>`.

use vstd::prelude::*;

verus! {

/// The needle occurs in the haystack starting at character position `i`.
pub open spec fn match_at(hay: Seq<char>, needle: Seq<char>, i: int) -> bool {
    &&& 0 <= i
    &&& i + needle.len() <= hay.len()
    &&& hay.subrange(i, i + needle.len()) == needle
}

/// The needle occurs somewhere in the haystack.
pub open spec fn has_substring(hay: Seq<char>, needle: Seq<char>) -> bool {
    exists|i: int| match_at(hay, needle, i)
}

/// Whether the needle occurs at one fixed character position.
fn matches_at(hay: &str, needle: &str, i: usize, hay_len: usize, needle_len: usize) -> (b: bool)
    requires
        hay_len == hay@.len(),
        needle_len == needle@.len(),
        i + needle_len <= hay_len,
    ensures
        b == match_at(hay@, needle@, i as int),
{
    let mut j: usize = 0;
    while j < needle_len
        invariant
            hay_len == hay@.len(),
            needle_len == needle@.len(),
            i + needle_len <= hay_len,
            j <= needle_len,
            forall|k: int| 0 <= k < j ==> hay@[i + k] == needle@[k],
        decreases needle_len - j,
    {
        if hay.get_char(i + j) != needle.get_char(j) {
            proof {
                let sub = hay@.subrange(i as int, i + needle@.len());
                assert(sub[j as int] == hay@[i + j]);
            }
            return false;
        }
        j += 1;
    }
    proof {
        assert(hay@.subrange(i as int, i + needle@.len()) =~= needle@);
    }
    true
}

/// Whether `needle` occurs anywhere in `hay`.
pub fn contains_str(hay: &str, needle: &str) -> (b: bool)
    ensures
        b == has_substring(hay@, needle@),
{
    let hay_len = hay.unicode_len();
    let needle_len = needle.unicode_len();
    if needle_len == 0 {
        proof {
            assert(hay@.subrange(0, 0) =~= needle@);
            assert(match_at(hay@, needle@, 0));
        }
        return true;
    }
    if needle_len > hay_len {
        return false;
    }
    let last_start = hay_len - needle_len;
    let mut i: usize = 0;
    while i <= last_start
        invariant
            hay_len == hay@.len(),
            needle_len == needle@.len(),
            0 < needle_len <= hay_len,
            last_start == hay_len - needle_len,
            i <= last_start + 1,
            forall|k: int| 0 <= k < i ==> !match_at(hay@, needle@, k),
        decreases last_start + 1 - i,
    {
        if matches_at(hay, needle, i, hay_len, needle_len) {
            return true;
        }
        i += 1;
    }
    false
}

/// Whether `prefix` is a prefix of `hay`.
pub fn starts_with_str(hay: &str, prefix: &str) -> (b: bool)
    ensures
        b == prefix@.is_prefix_of(hay@),
{
    let hay_len = hay.unicode_len();
    let prefix_len = prefix.unicode_len();
    if prefix_len > hay_len {
        return false;
    }
    matches_at(hay, prefix, 0, hay_len, prefix_len)
}

/// Whether `suffix` is a suffix of `hay`.
pub fn ends_with_str(hay: &str, suffix: &str) -> (b: bool)
    ensures
        b == suffix@.is_suffix_of(hay@),
{
    let hay_len = hay.unicode_len();
    let suffix_len = suffix.unicode_len();
    if suffix_len > hay_len {
        return false;
    }
    let start = hay_len - suffix_len;
    let b = matches_at(hay, suffix, start, hay_len, suffix_len);
    proof {
        assert(hay@.subrange(start as int, start + suffix@.len()) =~= hay@.subrange(
            hay@.len() - suffix@.len(),
            hay@.len() as int,
        ));
    }
    b
}

/// A match inside the second half of a concatenation is a match inside the
/// whole, shifted by the length of the first half.
pub proof fn lemma_match_at_shift(front: Seq<char>, back: Seq<char>, needle: Seq<char>, i: int)
    requires
        match_at(back, needle, i),
    ensures
        match_at(front + back, needle, front.len() + i),
{
    assert((front + back).subrange(front.len() + i, front.len() + i + needle.len()) =~= back
        .subrange(i, i + needle.len()));
}

} // verus!
