//! Text as sequences of characters: literal substring search.

use vstd::prelude::*;

verus! {

/// `needle` stands in `haystack` starting at position `at`.
pub open spec fn occurs_at(haystack: Seq<char>, needle: Seq<char>, at: int) -> bool {
    &&& 0 <= at
    &&& at + needle.len() <= haystack.len()
    &&& haystack.subrange(at, at + needle.len()) == needle
}

/// `needle` is a literal, case-sensitive substring of `haystack`.
pub open spec fn contains_text(haystack: Seq<char>, needle: Seq<char>) -> bool {
    exists|at: int| occurs_at(haystack, needle, at)
}

/// The characters of a string slice, in order.
pub fn chars_of(text: &str) -> (chars: Vec<char>)
    ensures
        chars@ == text@,
{
    broadcast use vstd::string::group_string_axioms;

    let mut chars: Vec<char> = Vec::new();
    for c in it: text.chars()
        invariant
            it.seq() == text@,
            chars@ == it.seq().take(it.index()),
    {
        chars.push(c);
    }
    chars
}

/// Whether `needle` stands in `haystack` at position `at`. A position from
/// which the needle would run past the end holds no occurrence.
pub fn matches_at(haystack: &Vec<char>, needle: &Vec<char>, at: usize) -> (found: bool)
    ensures
        found == occurs_at(haystack@, needle@, at as int),
{
    let limit: usize = haystack.len();
    let width: usize = needle.len();
    if at > limit || width > limit - at {
        return false;
    }
    let mut offset: usize = 0;
    while offset < width
        invariant
            offset <= width,
            width == needle@.len(),
            limit == haystack@.len(),
            at + width <= limit,
            forall|k: int| 0 <= k < offset ==> haystack@[at + k] == needle@[k],
        decreases width - offset,
    {
        if haystack[at + offset] != needle[offset] {
            let ghost window = haystack@.subrange(at as int, at + width);
            assert(window[offset as int] != needle@[offset as int]);
            return false;
        }
        offset += 1;
    }
    assert(haystack@.subrange(at as int, at + width) =~= needle@);
    true
}

/// Whether `needle` occurs anywhere in `haystack`, compared character by
/// character. The empty needle occurs in every haystack.
pub fn contains_chars(haystack: &Vec<char>, needle: &Vec<char>) -> (found: bool)
    ensures
        found == contains_text(haystack@, needle@),
{
    if needle.len() > haystack.len() {
        return false;
    }
    let last: usize = haystack.len() - needle.len();
    let mut at: usize = 0;
    loop
        invariant
            at <= last,
            last == haystack@.len() - needle@.len(),
            forall|k: int| 0 <= k < at ==> !occurs_at(haystack@, needle@, k),
        decreases last - at,
    {
        if matches_at(haystack, needle, at) {
            return true;
        }
        if at == last {
            return false;
        }
        at += 1;
    }
}

/// Whether `needle` is a literal, case-sensitive substring of `haystack`.
pub fn str_contains(haystack: &str, needle: &str) -> (found: bool)
    ensures
        found == contains_text(haystack@, needle@),
{
    let hay = chars_of(haystack);
    let pin = chars_of(needle);
    contains_chars(&hay, &pin)
}

/// Whether two string slices hold the same characters.
pub fn str_equal(left: &str, right: &str) -> (same: bool)
    ensures
        same == (left@ == right@),
{
    let a = chars_of(left);
    let b = chars_of(right);
    if a.len() != b.len() {
        return false;
    }
    let mut at: usize = 0;
    while at < a.len()
        invariant
            at <= a@.len(),
            a@.len() == b@.len(),
            a@ == left@,
            b@ == right@,
            forall|k: int| 0 <= k < at ==> a@[k] == b@[k],
        decreases a@.len() - at,
    {
        if a[at] != b[at] {
            assert(left@[at as int] != right@[at as int]);
            return false;
        }
        at += 1;
    }
    assert(a@ =~= b@);
    true
}

} // verus!
