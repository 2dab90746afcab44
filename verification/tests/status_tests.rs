use gitsage::repository::{
    branch_distance, stash_ref, tag_refname, EngineState, RepoOperationState, TagInfo,
};
use gitsage::status::{file_statuses, FileStatus, FileStatusKind, StatusEntry, StatusFlags};

fn no_flags() -> StatusFlags {
    StatusFlags {
        index_new: false,
        index_modified: false,
        index_deleted: false,
        index_renamed: false,
        index_typechange: false,
        wt_new: false,
        wt_modified: false,
        wt_deleted: false,
        wt_renamed: false,
        wt_typechange: false,
        conflicted: false,
    }
}

fn entry(path: &str, flags: StatusFlags) -> StatusEntry {
    StatusEntry { path: Some(path.to_string()), flags }
}

fn status(path: &str, status: FileStatusKind, staged: bool) -> FileStatus {
    FileStatus { path: path.to_string(), status, staged }
}

#[test]
fn staged_and_unstaged_status_of_one_file() {
    let flags = StatusFlags { index_modified: true, wt_deleted: true, ..no_flags() };
    assert_eq!(
        file_statuses(&[entry("a.rs", flags)]),
        vec![
            status("a.rs", FileStatusKind::Modified, true),
            status("a.rs", FileStatusKind::Deleted, false),
        ]
    );
}

#[test]
fn first_flag_of_each_side_counts() {
    let flags = StatusFlags {
        index_new: true,
        index_modified: true,
        index_typechange: true,
        wt_renamed: true,
        wt_typechange: true,
        ..no_flags()
    };
    assert_eq!(flags.staged(), Some(FileStatusKind::New));
    assert_eq!(flags.unstaged(), Some(FileStatusKind::Renamed));
    let only_last = StatusFlags { index_typechange: true, wt_typechange: true, ..no_flags() };
    assert_eq!(only_last.staged(), Some(FileStatusKind::Typechange));
    assert_eq!(only_last.unstaged(), Some(FileStatusKind::Typechange));
    assert_eq!(no_flags().staged(), None);
    assert_eq!(no_flags().unstaged(), None);
}

#[test]
fn conflict_comes_last_and_unstaged() {
    let flags = StatusFlags { wt_modified: true, conflicted: true, ..no_flags() };
    assert_eq!(
        file_statuses(&[entry("c", flags)]),
        vec![
            status("c", FileStatusKind::Modified, false),
            status("c", FileStatusKind::Conflicted, false),
        ]
    );
}

#[test]
fn entries_keep_their_order() {
    let statuses = file_statuses(&[
        entry("new.txt", StatusFlags { wt_new: true, ..no_flags() }),
        entry("quiet", no_flags()),
        StatusEntry { path: None, flags: StatusFlags { index_deleted: true, ..no_flags() } },
        entry("r", StatusFlags { index_renamed: true, ..no_flags() }),
    ]);
    assert_eq!(
        statuses,
        vec![
            status("new.txt", FileStatusKind::New, false),
            status("", FileStatusKind::Deleted, true),
            status("r", FileStatusKind::Renamed, true),
        ]
    );
    assert_eq!(file_statuses(&[]), vec![]);
}

#[test]
fn engine_states() {
    let table = [
        (EngineState::Clean, RepoOperationState::Normal),
        (EngineState::Merge, RepoOperationState::Merging),
        (EngineState::Revert, RepoOperationState::Reverting),
        (EngineState::RevertSequence, RepoOperationState::Reverting),
        (EngineState::CherryPick, RepoOperationState::CherryPicking),
        (EngineState::CherryPickSequence, RepoOperationState::CherryPicking),
        (EngineState::Bisect, RepoOperationState::Normal),
        (EngineState::Rebase, RepoOperationState::Rebasing),
        (EngineState::RebaseInteractive, RepoOperationState::Rebasing),
        (EngineState::RebaseMerge, RepoOperationState::Rebasing),
        (EngineState::ApplyMailbox, RepoOperationState::Normal),
        (EngineState::ApplyMailboxOrRebase, RepoOperationState::Normal),
    ];
    for (engine, operation) in table {
        assert_eq!(RepoOperationState::from_engine(engine), operation);
    }
}

#[test]
fn tags() {
    let light = TagInfo::lightweight("v1".to_string(), "abc".to_string());
    assert_eq!(
        light,
        TagInfo {
            name: "v1".to_string(),
            target_id: "abc".to_string(),
            message: None,
            tagger: None,
            timestamp: None,
            is_lightweight: true,
        }
    );
    let full = TagInfo::annotated(
        "v2".to_string(),
        "def".to_string(),
        Some("release\n".to_string()),
        Some("Ann".to_string()),
        Some(1700000000),
    );
    assert!(!full.is_lightweight);
    assert_eq!(full.message, Some("release\n".to_string()));
    assert_eq!(full.tagger, Some("Ann".to_string()));
    assert_eq!(full.timestamp, Some(1700000000));
    assert_eq!(tag_refname("v1.0"), "refs/tags/v1.0");
}

#[test]
fn stash_names_and_branch_distance() {
    assert_eq!(stash_ref(0), "stash@{0}");
    assert_eq!(stash_ref(12), "stash@{12}");
    assert_eq!(branch_distance(3, 0), (3, 0));
    assert_eq!(branch_distance(0, 4294967295), (0, 4294967295));
}
