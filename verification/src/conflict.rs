//! Files in conflict.

use vstd::prelude::*;
use vstd::utf8::{decode_utf8, valid_utf8};
use crate::repository::ConflictFile;
use crate::text::decode_strict;

verus! {

/// The three index entries of a file in conflict, each by the bytes of its
/// path, and `None` where the entry is missing.
#[derive(Debug, Clone, PartialEq, Eq)]
pub struct ConflictSides {
    pub ancestor: Option<Vec<u8>>,
    pub our: Option<Vec<u8>>,
    pub their: Option<Vec<u8>>,
}

impl ConflictSides {
    /// The bytes of the path of the first entry that exists, of ours, theirs
    /// and the ancestor.
    pub open spec fn path_bytes(self) -> Option<Seq<u8>> {
        match self.our {
            Some(bytes) => Some(bytes@),
            None => match self.their {
                Some(bytes) => Some(bytes@),
                None => match self.ancestor {
                    Some(bytes) => Some(bytes@),
                    None => None,
                },
            },
        }
    }

    /// The path of the conflict: that of the first entry that exists, of
    /// ours, theirs and the ancestor, and empty where none exists or where
    /// the path is not valid UTF-8.
    pub open spec fn path(self) -> Seq<char> {
        match self.path_bytes() {
            Some(bytes) => if valid_utf8(bytes) {
                decode_utf8(bytes)
            } else {
                Seq::empty()
            },
            None => Seq::empty(),
        }
    }
}

/// The path of a conflict.
pub fn conflict_path(sides: &ConflictSides) -> (path: String)
    ensures
        path@ == sides.path(),
{
    let bytes = match &sides.our {
        Some(bytes) => Some(bytes),
        None => match &sides.their {
            Some(bytes) => Some(bytes),
            None => match &sides.ancestor {
                Some(bytes) => Some(bytes),
                None => None,
            },
        },
    };
    match bytes {
        Some(bytes) => match decode_strict(bytes.as_slice()) {
            Some(path) => path,
            None => String::new(),
        },
        None => String::new(),
    }
}

/// Describes a conflict: its path, and which of the three versions exist.
pub fn conflict_file(sides: &ConflictSides) -> (file: ConflictFile)
    ensures
        file.path@ == sides.path(),
        file.has_base == sides.ancestor is Some,
        file.has_ours == sides.our is Some,
        file.has_theirs == sides.their is Some,
{
    ConflictFile {
        path: conflict_path(sides),
        has_base: sides.ancestor.is_some(),
        has_ours: sides.our.is_some(),
        has_theirs: sides.their.is_some(),
    }
}

/// Finds the first conflict with the path `path`, or `None` where there is
/// none.
pub fn find_conflict(conflicts: &[ConflictSides], path: &str) -> (found: Option<usize>)
    ensures
        match found {
            Some(index) => {
                &&& index < conflicts@.len()
                &&& conflicts@[index as int].path() == path@
                &&& forall|j: int| 0 <= j < index ==> (#[trigger] conflicts@[j]).path() != path@
            },
            None => forall|j: int|
                0 <= j < conflicts@.len() ==> (#[trigger] conflicts@[j]).path() != path@,
        },
{
    let wanted = String::from_str(path);
    let mut index: usize = 0;
    while index < conflicts.len()
        invariant
            index <= conflicts.len(),
            wanted@ == path@,
            forall|j: int| 0 <= j < index ==> (#[trigger] conflicts@[j]).path() != path@,
        decreases conflicts.len() - index,
    {
        let candidate = conflict_path(&conflicts[index]);
        if candidate == wanted {
            return Some(index);
        }
        index = index + 1;
    }
    None
}

/// The message for a path that is in no conflict.
pub fn no_conflict_message(path: &str) -> (message: String)
    ensures
        message@ == "No conflict found for path: "@ + path@,
{
    let mut message = String::from_str("No conflict found for path: ");
    message.append(path);
    message
}

} // verus!
