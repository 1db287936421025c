//! Character-level text operations with exact contracts, used by the card,
//! detection and presentation logic.
use vstd::prelude::*;
use vstd::string::StrSliceExecFns;
use vstd::utf8::encode_utf8;

verus! {

/// `needle` occurs as a contiguous run of characters in `haystack`.
pub open spec fn text_contains(haystack: Seq<char>, needle: Seq<char>) -> bool {
    exists|i: int|
        0 <= i && i + needle.len() <= haystack.len() && #[trigger] haystack.subrange(
            i,
            i + needle.len(),
        ) == needle
}

/// `prefix` is an initial part of `text`.
pub open spec fn text_starts_with(text: Seq<char>, prefix: Seq<char>) -> bool {
    prefix.len() <= text.len() && text.subrange(0, prefix.len() as int) == prefix
}

/// What is left of `text` once `prefix` is taken off its front, if it starts with it.
pub open spec fn text_strip_prefix(text: Seq<char>, prefix: Seq<char>) -> Option<Seq<char>> {
    if text_starts_with(text, prefix) {
        Some(text.skip(prefix.len() as int))
    } else {
        None
    }
}

/// The character views of an optional string.
pub open spec fn opt_text(s: Option<String>) -> Option<Seq<char>> {
    match s {
        Some(s) => Some(s@),
        None => None,
    }
}

/// The character views of a sequence of strings.
pub open spec fn texts(s: Seq<String>) -> Seq<Seq<char>> {
    s.map_values(|t: String| t@)
}

/// Character-wise equality of two string slices.
pub fn text_equal(a: &str, b: &str) -> (res: bool)
    ensures
        res == (a@ == b@),
{
    let n: usize = a.unicode_len();
    if n != b.unicode_len() {
        return false;
    }
    let mut i: usize = 0;
    while i < n
        invariant
            n == a@.len(),
            n == b@.len(),
            i <= n,
            forall|j: int| 0 <= j < i ==> a@[j] == b@[j],
        decreases n - i,
    {
        if a.get_char(i) != b.get_char(i) {
            return false;
        }
        i = i + 1;
    }
    assert(a@ =~= b@);
    true
}

/// Whether the characters of `text` from position `start` on begin with `pattern`.
fn matches_at(text: &str, pattern: &str, start: usize, text_len: usize, pattern_len: usize) -> (res:
    bool)
    requires
        text_len == text@.len(),
        pattern_len == pattern@.len(),
        start + pattern_len <= text_len,
    ensures
        res == (text@.subrange(start as int, start + pattern_len) == pattern@),
{
    let mut j: usize = 0;
    while j < pattern_len
        invariant
            text_len == text@.len(),
            pattern_len == pattern@.len(),
            start + pattern_len <= text_len,
            j <= pattern_len,
            forall|k: int| 0 <= k < j ==> text@[start + k] == pattern@[k],
        decreases pattern_len - j,
    {
        if text.get_char(start + j) != pattern.get_char(j) {
            assert(text@.subrange(start as int, start + pattern_len)[j as int] != pattern@[j as int]);
            return false;
        }
        j = j + 1;
    }
    assert(text@.subrange(start as int, start + pattern_len) =~= pattern@);
    true
}

/// Whether `needle` occurs in `haystack`.
pub fn contains_text(haystack: &str, needle: &str) -> (res: bool)
    ensures
        res == text_contains(haystack@, needle@),
{
    let h: usize = haystack.unicode_len();
    let n: usize = needle.unicode_len();
    if n > h {
        return false;
    }
    if n == 0 {
        assert(haystack@.subrange(0int, 0int + needle@.len()) =~= needle@);
        return true;
    }
    let last: usize = h - n;
    let mut i: usize = 0;
    while i <= last
        invariant
            h == haystack@.len(),
            n == needle@.len(),
            n >= 1,
            last == h - n,
            i <= last + 1,
            forall|k: int|
                0 <= k < i ==> #[trigger] haystack@.subrange(k, k + n) != needle@,
        decreases last + 1 - i,
    {
        if matches_at(haystack, needle, i, h, n) {
            return true;
        }
        i = i + 1;
    }
    false
}

/// `text` without its leading `prefix`, or `None` when it does not start with `prefix`.
pub fn strip_prefix_text(text: &str, prefix: &str) -> (res: Option<String>)
    ensures
        opt_text(res) == text_strip_prefix(text@, prefix@),
{
    let t: usize = text.unicode_len();
    let p: usize = prefix.unicode_len();
    if p > t {
        return None;
    }
    if !matches_at(text, prefix, 0, t, p) {
        return None;
    }
    let rest = text.substring_char(p, t);
    let owned = rest.to_owned();
    assert(owned@ =~= text@.skip(p as int));
    Some(owned)
}

/// The UTF-8 encoding of a concatenation is the concatenation of the encodings.
pub proof fn lemma_encode_utf8_concat(a: Seq<char>, b: Seq<char>)
    ensures
        encode_utf8(a + b) == encode_utf8(a) + encode_utf8(b),
    decreases a.len(),
{
    if a.len() == 0 {
        assert(a + b =~= b);
        assert(encode_utf8(a) =~= Seq::<u8>::empty());
        assert(encode_utf8(a) + encode_utf8(b) =~= encode_utf8(b));
    } else {
        lemma_encode_utf8_concat(a.drop_first(), b);
        assert((a + b).drop_first() =~= a.drop_first() + b);
        assert((a + b)[0] == a[0]);
        assert(encode_utf8(a + b) =~= encode_utf8(a) + encode_utf8(b));
    }
}

/// The UTF-8 bytes of `head` followed by those of `tail`.
pub fn utf8_bytes_of_concat(head: &str, tail: &str) -> (res: Vec<u8>)
    ensures
        res@ == encode_utf8(head@ + tail@),
{
    let mut bytes = head.as_bytes_vec();
    let mut rest = tail.as_bytes_vec();
    bytes.append(&mut rest);
    proof {
        lemma_encode_utf8_concat(head@, tail@);
    }
    bytes
}

} // verus!
