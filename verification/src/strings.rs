//! Scanning text: characters, positions and occurrences.

use vstd::prelude::*;

verus! {

/// The characters of `text`, in order.
pub fn chars_of(text: &str) -> (chars: Vec<char>)
    ensures
        chars@ == text@,
{
    let mut chars: Vec<char> = Vec::new();
    for c in it: text.chars()
        invariant
            it.seq() == text@,
            chars@ == it.seq().take(it.index() as int),
    {
        chars.push(c);
        assert(chars@ =~= it.seq().take(it.index() + 1));
    }
    assert(chars@ =~= text@);
    chars
}

/// `needle` stands in `text` at the position `at`.
pub open spec fn occurs_at(text: Seq<char>, needle: Seq<char>, at: int) -> bool {
    0 <= at && at + needle.len() <= text.len() && text.subrange(at, at + needle.len()) == needle
}

/// `needle` stands somewhere in `text`.
pub open spec fn contains_text(text: Seq<char>, needle: Seq<char>) -> bool {
    exists|at: int| occurs_at(text, needle, at)
}

/// The position of the first `wanted` in `chars`, or `None` where there is
/// none.
pub fn first_index(chars: &[char], wanted: char) -> (found: Option<usize>)
    ensures
        match found {
            Some(at) => chars@.index_of_first(wanted) == Some(at as int),
            None => chars@.index_of_first(wanted) is None,
        },
{
    let mut at: usize = 0;
    while at < chars.len()
        invariant
            at <= chars.len(),
            forall|j: int| 0 <= j < at ==> chars@[j] != wanted,
        decreases chars.len() - at,
    {
        if chars[at] == wanted {
            proof {
                assert(chars@.contains(wanted));
                chars@.index_of_first_ensures(wanted);
            }
            return Some(at);
        }
        at = at + 1;
    }
    proof {
        chars@.index_of_first_ensures(wanted);
    }
    None
}

/// The position of the last `wanted` in `chars`, or `None` where there is
/// none.
pub fn last_index(chars: &[char], wanted: char) -> (found: Option<usize>)
    ensures
        match found {
            Some(at) => chars@.index_of_last(wanted) == Some(at as int),
            None => chars@.index_of_last(wanted) is None,
        },
{
    let mut at: usize = chars.len();
    while at > 0
        invariant
            at <= chars.len(),
            forall|j: int| at <= j < chars.len() ==> chars@[j] != wanted,
        decreases at,
    {
        at = at - 1;
        if chars[at] == wanted {
            proof {
                assert(chars@.contains(wanted));
                chars@.index_of_last_ensures(wanted);
            }
            return Some(at);
        }
    }
    proof {
        chars@.index_of_last_ensures(wanted);
    }
    None
}

/// Whether `needle` stands in `text` at the position `at`.
pub fn matches_at(text: &[char], needle: &[char], at: usize) -> (yes: bool)
    ensures
        yes == occurs_at(text@, needle@, at as int),
{
    if needle.len() > text.len() || at > text.len() - needle.len() {
        return false;
    }
    let mut k: usize = 0;
    while k < needle.len()
        invariant
            k <= needle.len(),
            at + needle.len() <= text.len(),
            forall|j: int| 0 <= j < k ==> text@[at + j] == needle@[j],
        decreases needle.len() - k,
    {
        if text[at + k] != needle[k] {
            assert(text@.subrange(at as int, at + needle@.len())[k as int] != needle@[k as int]);
            return false;
        }
        k = k + 1;
    }
    assert(text@.subrange(at as int, at + needle@.len()) =~= needle@);
    true
}

/// Whether `text` starts with `prefix`.
pub fn starts_with_text(text: &[char], prefix: &[char]) -> (yes: bool)
    ensures
        yes == prefix@.is_prefix_of(text@),
{
    matches_at(text, prefix, 0)
}

/// Whether `text` ends with `suffix`.
pub fn ends_with_text(text: &[char], suffix: &[char]) -> (yes: bool)
    ensures
        yes == suffix@.is_suffix_of(text@),
{
    if suffix.len() > text.len() {
        false
    } else {
        matches_at(text, suffix, text.len() - suffix.len())
    }
}

/// Whether `needle` stands somewhere in `text`.
pub fn has_text(text: &[char], needle: &[char]) -> (yes: bool)
    ensures
        yes == contains_text(text@, needle@),
{
    if needle.len() > text.len() {
        assert forall|at: int| !occurs_at(text@, needle@, at) by {}
        return false;
    }
    if needle.len() == 0 {
        assert(text@.subrange(0, 0) =~= needle@);
        assert(occurs_at(text@, needle@, 0));
        return true;
    }
    let last = text.len() - needle.len();
    let mut at: usize = 0;
    while at <= last
        invariant
            at <= last + 1,
            last == text.len() - needle.len(),
            needle.len() > 0,
            forall|j: int| 0 <= j < at ==> !occurs_at(text@, needle@, j),
        decreases last + 1 - at,
    {
        if matches_at(text, needle, at) {
            return true;
        }
        at = at + 1;
    }
    assert forall|j: int| !occurs_at(text@, needle@, j) by {}
    false
}

} // verus!
