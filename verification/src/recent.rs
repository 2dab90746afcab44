//! The list of the repositories that were opened last.

use vstd::prelude::*;

verus! {

/// A repository that was opened, and when.
#[derive(Debug, Clone, PartialEq, Eq)]
pub struct RepoEntry {
    /// Where the repository lies.
    pub path: String,
    /// The name shown for it.
    pub name: String,
    /// When it was opened last, in nanoseconds since the epoch.
    pub last_opened: i64,
}

/// How many repositories the list keeps.
pub const MAX_RECENT_REPOS: usize = 20;

/// The predicate "the entry lies elsewhere than `path`".
pub open spec fn elsewhere(path: Seq<char>) -> spec_fn(RepoEntry) -> bool {
    |e: RepoEntry| e.path@ != path
}

/// The list after `entry` was opened: `entry` first, then the entries of
/// `recent` that lie elsewhere, in their order, and no more than twenty in
/// all.
pub open spec fn remembered(recent: Seq<RepoEntry>, entry: RepoEntry) -> Seq<RepoEntry> {
    let all = seq![entry] + recent.filter(elsewhere(entry.path@));
    if all.len() <= MAX_RECENT_REPOS {
        all
    } else {
        all.take(MAX_RECENT_REPOS as int)
    }
}

/// Records that the repository of `entry` was opened: it moves to the front
/// of `recent`, an older entry for the same path leaves the list, and the
/// list keeps its twenty newest entries.
pub fn remember_repo(recent: Vec<RepoEntry>, entry: RepoEntry) -> (updated: Vec<RepoEntry>)
    ensures
        updated@ == remembered(recent@, entry),
{
    let ghost path = entry.path@;
    let ghost first = entry;
    let ghost earlier = recent@;
    let mut kept: Vec<RepoEntry> = Vec::new();
    let opened = entry.path.clone();
    kept.push(entry);
    for old in it: recent
        invariant
            it.seq() == earlier,
            opened@ == path,
            kept@ == seq![first] + earlier.take(it.index() as int).filter(elsewhere(path)),
    {
        let ghost before = earlier.take(it.index() as int);
        proof {
            assert(earlier.take(it.index() + 1) =~= before.push(old));
            Seq::lemma_filter_push(before, old, elsewhere(path));
        }
        if old.path != opened {
            kept.push(old);
        }
        assert(kept@ =~= seq![first] + earlier.take(it.index() + 1).filter(elsewhere(path)));
    }
    assert(earlier.take(earlier.len() as int) =~= earlier);
    if kept.len() > MAX_RECENT_REPOS {
        kept.truncate(MAX_RECENT_REPOS);
        assert(kept@ =~= remembered(earlier, first));
    }
    kept
}

} // verus!
