//! Which changes in the file system concern the user.

use vstd::prelude::*;
use crate::strings::{chars_of, contains_text, has_text};

verus! {

/// The path lies inside the repository's own directory: it holds `.git/` or
/// `.git\`.
pub open spec fn inside_git_dir(path: Seq<char>) -> bool {
    contains_text(path, ".git/"@) || contains_text(path, ".git\\"@)
}

/// Whether a path lies inside the repository's own directory.
pub fn is_git_internal(path: &str) -> (internal: bool)
    ensures
        internal == inside_git_dir(path@),
{
    let chars = chars_of(path);
    let unix = chars_of(".git/");
    let windows = chars_of(".git\\");
    has_text(chars.as_slice(), unix.as_slice()) || has_text(chars.as_slice(), windows.as_slice())
}

/// Whether any of the changed paths lies outside the repository's own
/// directory, so that the user's files changed.
pub fn has_file_changes(paths: &[String]) -> (changed: bool)
    ensures
        changed == exists|i: int| 0 <= i < paths@.len() && !inside_git_dir((#[trigger] paths@[i])@),
{
    let mut index: usize = 0;
    while index < paths.len()
        invariant
            index <= paths.len(),
            forall|i: int| 0 <= i < index ==> inside_git_dir((#[trigger] paths@[i])@),
        decreases paths.len() - index,
    {
        if !is_git_internal(paths[index].as_str()) {
            return true;
        }
        index = index + 1;
    }
    false
}

} // verus!
