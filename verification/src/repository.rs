//! What a repository tells of itself: branches, commits, stashes, tags,
//! remotes, conflicts, blame, submodules and worktrees.

use vstd::prelude::*;
use crate::text::append_decimal;
use crate::text::decimal;

verus! {

/// A branch.
#[derive(Debug, Clone, PartialEq, Eq)]
pub struct BranchInfo {
    pub name: String,
    pub is_head: bool,
    pub is_remote: bool,
    pub upstream: Option<String>,
    pub ahead: u32,
    pub behind: u32,
}

/// A commit.
#[derive(Debug, Clone, PartialEq, Eq)]
pub struct CommitInfo {
    pub id: String,
    pub summary: String,
    pub message: String,
    pub author_name: String,
    pub author_email: String,
    pub timestamp: i64,
    pub parent_ids: Vec<String>,
}

/// An entry of the stash.
#[derive(Debug, Clone, PartialEq, Eq)]
pub struct StashEntry {
    pub index: usize,
    pub message: String,
    pub timestamp: i64,
}

/// The operation that a repository is in the middle of.
#[derive(Debug, Clone, Copy, PartialEq, Eq, Structural)]
pub enum RepoOperationState {
    Normal,
    Merging,
    Rebasing,
    CherryPicking,
    Reverting,
}

/// The state of a repository as the engine tells it.
#[derive(Debug, Clone, Copy, PartialEq, Eq, Structural)]
pub enum EngineState {
    Clean,
    Merge,
    Revert,
    RevertSequence,
    CherryPick,
    CherryPickSequence,
    Bisect,
    Rebase,
    RebaseInteractive,
    RebaseMerge,
    ApplyMailbox,
    ApplyMailboxOrRebase,
}

impl RepoOperationState {
    /// The operation that an engine state stands for. Bisecting and applying
    /// a mailbox count as no operation.
    pub open spec fn of_engine(state: EngineState) -> RepoOperationState {
        match state {
            EngineState::Merge => RepoOperationState::Merging,
            EngineState::Revert | EngineState::RevertSequence => RepoOperationState::Reverting,
            EngineState::CherryPick | EngineState::CherryPickSequence => {
                RepoOperationState::CherryPicking
            },
            EngineState::Rebase | EngineState::RebaseInteractive | EngineState::RebaseMerge => {
                RepoOperationState::Rebasing
            },
            _ => RepoOperationState::Normal,
        }
    }

    /// The operation that a repository in the engine state `state` is in the
    /// middle of.
    pub fn from_engine(state: EngineState) -> (operation: RepoOperationState)
        ensures
            operation == Self::of_engine(state),
    {
        match state {
            EngineState::Clean => RepoOperationState::Normal,
            EngineState::Merge => RepoOperationState::Merging,
            EngineState::Revert => RepoOperationState::Reverting,
            EngineState::RevertSequence => RepoOperationState::Reverting,
            EngineState::CherryPick => RepoOperationState::CherryPicking,
            EngineState::CherryPickSequence => RepoOperationState::CherryPicking,
            EngineState::Bisect => RepoOperationState::Normal,
            EngineState::Rebase => RepoOperationState::Rebasing,
            EngineState::RebaseInteractive => RepoOperationState::Rebasing,
            EngineState::RebaseMerge => RepoOperationState::Rebasing,
            EngineState::ApplyMailbox => RepoOperationState::Normal,
            EngineState::ApplyMailboxOrRebase => RepoOperationState::Normal,
        }
    }
}

/// A tag.
#[derive(Debug, Clone, PartialEq, Eq)]
pub struct TagInfo {
    pub name: String,
    pub target_id: String,
    pub message: Option<String>,
    pub tagger: Option<String>,
    pub timestamp: Option<i64>,
    pub is_lightweight: bool,
}

impl TagInfo {
    /// A lightweight tag: a name for a commit, without message, tagger or
    /// time.
    pub fn lightweight(name: String, target_id: String) -> (tag: TagInfo)
        ensures
            tag.name == name,
            tag.target_id == target_id,
            tag.message is None,
            tag.tagger is None,
            tag.timestamp is None,
            tag.is_lightweight,
    {
        TagInfo {
            name,
            target_id,
            message: None,
            tagger: None,
            timestamp: None,
            is_lightweight: true,
        }
    }

    /// An annotated tag: a tag object with what it holds.
    pub fn annotated(
        name: String,
        target_id: String,
        message: Option<String>,
        tagger: Option<String>,
        timestamp: Option<i64>,
    ) -> (tag: TagInfo)
        ensures
            tag.name == name,
            tag.target_id == target_id,
            tag.message == message,
            tag.tagger == tagger,
            tag.timestamp == timestamp,
            !tag.is_lightweight,
    {
        TagInfo { name, target_id, message, tagger, timestamp, is_lightweight: false }
    }
}

/// The name of the reference of the tag `name`.
pub fn tag_refname(name: &str) -> (refname: String)
    ensures
        refname@ == "refs/tags/"@ + name@,
{
    let mut refname = String::from_str("refs/tags/");
    refname.append(name);
    refname
}

/// The name by which the stash entry `index` is addressed.
pub fn stash_ref(index: usize) -> (name: String)
    ensures
        name@ == "stash@{"@ + decimal(index as nat) + "}"@,
{
    let mut name = String::from_str("stash@{");
    append_decimal(&mut name, index as u64);
    name.append("}");
    name
}

/// How far a branch is ahead of and behind its upstream, as the two numbers
/// of a [`BranchInfo`]: each count cut down to its low 32 bits.
pub fn branch_distance(ahead: usize, behind: usize) -> (distance: (u32, u32))
    ensures
        distance.0 == ahead as u32,
        distance.1 == behind as u32,
{
    (#[verifier::truncate] (ahead as u32), #[verifier::truncate] (behind as u32))
}

/// A remote.
#[derive(Debug, Clone, PartialEq, Eq)]
pub struct RemoteInfo {
    pub name: String,
    pub url: String,
    pub fetch_url: Option<String>,
}

/// A file in conflict, and which of its three versions exist.
#[derive(Debug, Clone, PartialEq, Eq)]
pub struct ConflictFile {
    pub path: String,
    pub has_base: bool,
    pub has_ours: bool,
    pub has_theirs: bool,
}

/// The three versions of a file in conflict.
#[derive(Debug, Clone, PartialEq, Eq)]
pub struct ConflictVersions {
    pub base: Option<String>,
    pub ours: Option<String>,
    pub theirs: Option<String>,
}

/// One line of a file with the commit that last changed it.
#[derive(Debug, Clone, PartialEq, Eq)]
pub struct BlameLine {
    pub line_no: u32,
    pub commit_id: String,
    pub author_name: String,
    pub author_email: String,
    pub timestamp: i64,
    pub content: String,
}

/// A submodule.
#[derive(Debug, Clone, PartialEq, Eq)]
pub struct SubmoduleInfo {
    pub name: String,
    pub path: String,
    pub url: String,
    pub head_id: Option<String>,
    pub is_initialized: bool,
}

/// A worktree.
#[derive(Debug, Clone, PartialEq, Eq)]
pub struct WorktreeInfo {
    pub path: String,
    pub branch: String,
    pub head_id: String,
    pub is_main: bool,
}

} // verus!
