//! Walking the history: which commits of a walk a listing takes.

use vstd::prelude::*;
use crate::strings::{chars_of, contains_text, has_text};
use crate::text::{lowercase, lowered};

verus! {

/// What a listing does with the next commit of a walk.
#[derive(Debug, Clone, Copy, PartialEq, Eq, Structural)]
pub enum WalkStep {
    /// Pass over the commit.
    Skip,
    /// Take the commit into the listing.
    Take,
    /// End the walk: the listing is full.
    Stop,
}

/// What a listing of at most `max_count` commits that leaves out the first
/// `skip` commits of a walk does with the commit at `position`, when it has
/// taken `taken` commits so far.
pub open spec fn walk_step(position: nat, taken: nat, max_count: nat, skip: nat) -> WalkStep {
    if position < skip {
        WalkStep::Skip
    } else if taken >= max_count {
        WalkStep::Stop
    } else {
        WalkStep::Take
    }
}

/// Decides what a paged listing does with the next commit of a walk.
///
/// The first `skip` commits are passed over. After them commits are taken
/// until `max_count` are taken, and then the walk ends.
pub fn page_step(position: usize, taken: usize, max_count: usize, skip: usize) -> (step: WalkStep)
    ensures
        step == walk_step(position as nat, taken as nat, max_count as nat, skip as nat),
{
    if position < skip {
        WalkStep::Skip
    } else if taken >= max_count {
        WalkStep::Stop
    } else {
        WalkStep::Take
    }
}

/// Whether a commit changed a file, from the file's object in the commit
/// and in its first parent.
pub open spec fn changed_in_commit(
    has_parent: bool,
    current: Option<String>,
    parent: Option<String>,
) -> bool {
    if !has_parent {
        current is Some
    } else {
        match (current, parent) {
            (Some(now), Some(before)) => now@ != before@,
            (None, None) => false,
            _ => true,
        }
    }
}

/// Decides whether a commit changed a file.
///
/// `current` is the id of the file's object in the commit and `parent` the
/// id of its object in the first parent, each `None` where the file does not
/// exist there. A commit without parent changed the file if the file exists
/// in it. Any other commit changed it if the file was added, was deleted or
/// has another object than before.
pub fn file_changed(has_parent: bool, current: &Option<String>, parent: &Option<String>) -> (changed:
    bool)
    ensures
        changed == changed_in_commit(has_parent, *current, *parent),
{
    if !has_parent {
        current.is_some()
    } else {
        match (current, parent) {
            (Some(now), Some(before)) => !(*now == *before),
            (None, None) => false,
            _ => true,
        }
    }
}

/// The form of a search text that messages are compared with: the text in
/// lowercase.
pub fn search_key(query: &str) -> (key: String)
    ensures
        key@ == lowered(query@),
{
    lowercase(query)
}

/// Whether the commit message `message` matches the search key `key`: the
/// key stands somewhere in the message once the message is in lowercase.
pub fn message_matches(message: &str, key: &str) -> (matches: bool)
    ensures
        matches == contains_text(lowered(message@), key@),
{
    let lower = lowercase(message);
    let text = chars_of(lower.as_str());
    let needle = chars_of(key);
    has_text(text.as_slice(), needle.as_slice())
}

} // verus!
