//! The status of the files of a working tree.

use vstd::prelude::*;

verus! {

/// What happened to a file.
#[derive(Debug, Clone, Copy, PartialEq, Eq, Structural)]
pub enum FileStatusKind {
    New,
    Modified,
    Deleted,
    Renamed,
    Typechange,
    Conflicted,
}

/// A file with what happened to it, in the index (`staged`) or in the
/// working tree.
#[derive(Debug, Clone, PartialEq, Eq)]
pub struct FileStatus {
    pub path: String,
    pub status: FileStatusKind,
    pub staged: bool,
}

/// The mathematical value of a [`FileStatus`].
pub struct FileStatusView {
    pub path: Seq<char>,
    pub status: FileStatusKind,
    pub staged: bool,
}

impl View for FileStatus {
    type V = FileStatusView;

    open spec fn view(&self) -> FileStatusView {
        FileStatusView { path: self.path@, status: self.status, staged: self.staged }
    }
}

/// The views of a sequence of file statuses, in order.
pub open spec fn status_views(statuses: Seq<FileStatus>) -> Seq<FileStatusView> {
    statuses.map_values(|s: FileStatus| s@)
}

/// The engine's flags for one path: what differs between the last commit and
/// the index, what differs between the index and the working tree, and
/// whether the path is in conflict.
#[derive(Debug, Clone, Copy, PartialEq, Eq, Structural)]
pub struct StatusFlags {
    pub index_new: bool,
    pub index_modified: bool,
    pub index_deleted: bool,
    pub index_renamed: bool,
    pub index_typechange: bool,
    pub wt_new: bool,
    pub wt_modified: bool,
    pub wt_deleted: bool,
    pub wt_renamed: bool,
    pub wt_typechange: bool,
    pub conflicted: bool,
}

/// One entry of the engine's status list.
#[derive(Debug, Clone, PartialEq, Eq)]
pub struct StatusEntry {
    pub path: Option<String>,
    pub flags: StatusFlags,
}

impl StatusFlags {
    /// What happened in the index, if anything: the first that holds of new,
    /// modified, deleted, renamed and type change.
    pub open spec fn staged_kind(self) -> Option<FileStatusKind> {
        if self.index_new {
            Some(FileStatusKind::New)
        } else if self.index_modified {
            Some(FileStatusKind::Modified)
        } else if self.index_deleted {
            Some(FileStatusKind::Deleted)
        } else if self.index_renamed {
            Some(FileStatusKind::Renamed)
        } else if self.index_typechange {
            Some(FileStatusKind::Typechange)
        } else {
            None
        }
    }

    /// What happened in the working tree, if anything: the first that holds
    /// of new, modified, deleted, renamed and type change.
    pub open spec fn unstaged_kind(self) -> Option<FileStatusKind> {
        if self.wt_new {
            Some(FileStatusKind::New)
        } else if self.wt_modified {
            Some(FileStatusKind::Modified)
        } else if self.wt_deleted {
            Some(FileStatusKind::Deleted)
        } else if self.wt_renamed {
            Some(FileStatusKind::Renamed)
        } else if self.wt_typechange {
            Some(FileStatusKind::Typechange)
        } else {
            None
        }
    }

    /// What happened in the index, if anything.
    pub fn staged(&self) -> (kind: Option<FileStatusKind>)
        ensures
            kind == self.staged_kind(),
    {
        if self.index_new {
            Some(FileStatusKind::New)
        } else if self.index_modified {
            Some(FileStatusKind::Modified)
        } else if self.index_deleted {
            Some(FileStatusKind::Deleted)
        } else if self.index_renamed {
            Some(FileStatusKind::Renamed)
        } else if self.index_typechange {
            Some(FileStatusKind::Typechange)
        } else {
            None
        }
    }

    /// What happened in the working tree, if anything.
    pub fn unstaged(&self) -> (kind: Option<FileStatusKind>)
        ensures
            kind == self.unstaged_kind(),
    {
        if self.wt_new {
            Some(FileStatusKind::New)
        } else if self.wt_modified {
            Some(FileStatusKind::Modified)
        } else if self.wt_deleted {
            Some(FileStatusKind::Deleted)
        } else if self.wt_renamed {
            Some(FileStatusKind::Renamed)
        } else if self.wt_typechange {
            Some(FileStatusKind::Typechange)
        } else {
            None
        }
    }
}

/// A sequence of one status, or of none.
pub open spec fn one_or_none(
    path: Seq<char>,
    kind: Option<FileStatusKind>,
    staged: bool,
) -> Seq<FileStatusView> {
    match kind {
        Some(status) => seq![FileStatusView { path, status, staged }],
        None => Seq::empty(),
    }
}

/// The path of an entry: empty where the engine gives none.
pub open spec fn entry_path(entry: StatusEntry) -> Seq<char> {
    match entry.path {
        Some(path) => path@,
        None => Seq::empty(),
    }
}

/// The statuses of one entry: at most one for the index, then at most one
/// for the working tree, then one more if the path is in conflict.
pub open spec fn entry_statuses(entry: StatusEntry) -> Seq<FileStatusView> {
    one_or_none(entry_path(entry), entry.flags.staged_kind(), true) + one_or_none(
        entry_path(entry),
        entry.flags.unstaged_kind(),
        false,
    ) + one_or_none(
        entry_path(entry),
        if entry.flags.conflicted {
            Some(FileStatusKind::Conflicted)
        } else {
            None
        },
        false,
    )
}

/// The statuses of each entry, in order.
pub open spec fn statuses_by_entry(entries: Seq<StatusEntry>) -> Seq<Seq<FileStatusView>> {
    entries.map_values(|e: StatusEntry| entry_statuses(e))
}

/// Appends the status of `path` to `list` if there is one.
fn push_status(list: &mut Vec<FileStatus>, path: &String, kind: Option<FileStatusKind>, staged: bool)
    ensures
        status_views(final(list)@) == status_views(old(list)@) + one_or_none(path@, kind, staged),
{
    let ghost before = list@;
    match kind {
        Some(status) => {
            let entry = FileStatus { path: path.clone(), status, staged };
            list.push(entry);
            assert(status_views(list@) =~= status_views(before) + one_or_none(
                path@,
                kind,
                staged,
            ));
        },
        None => {
            assert(status_views(list@) =~= status_views(before) + one_or_none(
                path@,
                kind,
                staged,
            ));
        },
    }
}

/// Lists the statuses of the files of a working tree from the engine's
/// status entries.
///
/// Each entry gives, in this order, at most one staged status, at most one
/// unstaged status, and a conflict status if the path is in conflict. Of
/// new, modified, deleted, renamed and type change the first that the engine
/// flags counts, on each side. An entry without a path has the empty path.
pub fn file_statuses(entries: &[StatusEntry]) -> (statuses: Vec<FileStatus>)
    ensures
        status_views(statuses@) == statuses_by_entry(entries@).flatten(),
{
    let mut statuses: Vec<FileStatus> = Vec::new();
    let mut index: usize = 0;
    assert(statuses_by_entry(entries@.take(0)) =~= Seq::<Seq<FileStatusView>>::empty());
    assert(status_views(statuses@) =~= Seq::<FileStatusView>::empty());
    while index < entries.len()
        invariant
            index <= entries.len(),
            status_views(statuses@) == statuses_by_entry(entries@.take(index as int)).flatten(),
        decreases entries.len() - index,
    {
        let entry = &entries[index];
        let ghost before = status_views(statuses@);
        let path = match &entry.path {
            Some(path) => path.clone(),
            None => String::new(),
        };
        assert(path@ == entry_path(*entry));
        push_status(&mut statuses, &path, entry.flags.staged(), true);
        push_status(&mut statuses, &path, entry.flags.unstaged(), false);
        let conflict = if entry.flags.conflicted {
            Some(FileStatusKind::Conflicted)
        } else {
            None
        };
        push_status(&mut statuses, &path, conflict, false);
        proof {
            let so_far = statuses_by_entry(entries@.take(index as int));
            assert(statuses_by_entry(entries@.take(index + 1)) =~= so_far.push(
                entry_statuses(*entry),
            ));
            so_far.lemma_flatten_push(entry_statuses(*entry));
            assert(status_views(statuses@) =~= before + entry_statuses(*entry));
        }
        index = index + 1;
    }
    assert(entries@.take(entries.len() as int) =~= entries@);
    statuses
}

} // verus!
