use gitsage::classify::{classify, classify_file, classify_hunk, ChangeType, LineChange};
use gitsage::diff::{DiffFile, DiffHunk, DiffLine, DiffLineType, DiffOutput, DiffStats};

fn line(origin: DiffLineType, content: &str, old: Option<u32>, new: Option<u32>) -> DiffLine {
    DiffLine { origin, content: content.to_string(), old_lineno: old, new_lineno: new }
}

fn hunk(lines: Vec<DiffLine>) -> DiffHunk {
    DiffHunk { old_start: 1, old_lines: 0, new_start: 1, new_lines: 0, header: String::new(), lines }
}

fn change(start_line: u32, end_line: u32, change_type: ChangeType) -> LineChange {
    LineChange { start_line, end_line, change_type }
}

#[test]
fn replaced_line_is_one_modified_range() {
    let h = hunk(vec![
        line(DiffLineType::Context, "a\n", Some(1), Some(1)),
        line(DiffLineType::Deletion, "b\n", Some(2), None),
        line(DiffLineType::Addition, "X\n", None, Some(2)),
        line(DiffLineType::Context, "c\n", Some(3), Some(3)),
    ]);
    assert_eq!(classify_hunk(&h), vec![change(2, 2, ChangeType::Modified)]);
}

#[test]
fn appended_line_is_one_added_range() {
    let h = hunk(vec![
        line(DiffLineType::Context, "a\n", Some(1), Some(1)),
        line(DiffLineType::Context, "b\n", Some(2), Some(2)),
        line(DiffLineType::Addition, "c\n", None, Some(3)),
    ]);
    assert_eq!(classify_hunk(&h), vec![change(3, 3, ChangeType::Added)]);
}

#[test]
fn removed_last_line_is_one_deleted_range() {
    let h = hunk(vec![
        line(DiffLineType::Context, "a\n", Some(1), Some(1)),
        line(DiffLineType::Context, "b\n", Some(2), Some(2)),
        line(DiffLineType::Deletion, "c\n", Some(3), None),
    ]);
    assert_eq!(classify_hunk(&h), vec![change(3, 3, ChangeType::Deleted)]);
}

#[test]
fn runs_are_coalesced() {
    let h = hunk(vec![
        line(DiffLineType::Addition, "p\n", None, Some(1)),
        line(DiffLineType::Addition, "q\n", None, Some(2)),
        line(DiffLineType::Addition, "r\n", None, Some(3)),
        line(DiffLineType::Context, "a\n", Some(1), Some(4)),
        line(DiffLineType::Deletion, "b\n", Some(2), None),
        line(DiffLineType::Deletion, "c\n", Some(3), None),
        line(DiffLineType::Context, "d\n", Some(4), Some(5)),
        line(DiffLineType::Deletion, "e\n", Some(5), None),
        line(DiffLineType::Deletion, "f\n", Some(6), None),
        line(DiffLineType::Addition, "E\n", None, Some(6)),
        line(DiffLineType::Addition, "F\n", None, Some(7)),
        line(DiffLineType::Addition, "G\n", None, Some(8)),
    ]);
    assert_eq!(
        classify_hunk(&h),
        vec![
            change(1, 3, ChangeType::Added),
            change(2, 3, ChangeType::Deleted),
            change(5, 8, ChangeType::Modified),
        ]
    );
}

#[test]
fn addition_then_deletion_are_two_ranges() {
    let h = hunk(vec![
        line(DiffLineType::Addition, "X\n", None, Some(4)),
        line(DiffLineType::Deletion, "b\n", Some(9), None),
    ]);
    assert_eq!(
        classify_hunk(&h),
        vec![change(4, 4, ChangeType::Added), change(9, 9, ChangeType::Deleted)]
    );
}

#[test]
fn deletion_after_modified_range_opens_a_new_range() {
    let h = hunk(vec![
        line(DiffLineType::Deletion, "a\n", Some(1), None),
        line(DiffLineType::Addition, "A\n", None, Some(1)),
        line(DiffLineType::Deletion, "b\n", Some(2), None),
        line(DiffLineType::Addition, "B\n", None, Some(2)),
    ]);
    assert_eq!(
        classify_hunk(&h),
        vec![change(1, 1, ChangeType::Modified), change(2, 2, ChangeType::Modified)]
    );
}

#[test]
fn missing_line_numbers_fall_back() {
    let h = hunk(vec![
        line(DiffLineType::Addition, "x\n", None, None),
        line(DiffLineType::Addition, "y\n", None, Some(7)),
        line(DiffLineType::Addition, "z\n", None, None),
        line(DiffLineType::Context, "c\n", Some(1), Some(9)),
        line(DiffLineType::Deletion, "d\n", None, None),
        line(DiffLineType::Deletion, "e\n", None, None),
        line(DiffLineType::Addition, "f\n", None, None),
    ]);
    assert_eq!(
        classify_hunk(&h),
        vec![change(1, 7, ChangeType::Added), change(1, 1, ChangeType::Modified)]
    );
}

#[test]
fn context_and_header_lines_give_nothing() {
    let h = hunk(vec![
        line(DiffLineType::Header, "@@\n", None, None),
        line(DiffLineType::Context, "a\n", Some(1), Some(1)),
    ]);
    assert_eq!(classify_hunk(&h), vec![]);
    assert_eq!(classify_hunk(&hunk(vec![])), vec![]);
}

#[test]
fn header_line_separates_runs() {
    let h = hunk(vec![
        line(DiffLineType::Deletion, "a\n", Some(1), None),
        line(DiffLineType::Header, "@@\n", None, None),
        line(DiffLineType::Addition, "A\n", None, Some(1)),
    ]);
    assert_eq!(
        classify_hunk(&h),
        vec![change(1, 1, ChangeType::Deleted), change(1, 1, ChangeType::Added)]
    );
}

#[test]
fn deletion_run_does_not_reach_across_hunks() {
    let file = DiffFile {
        old_path: Some("f".to_string()),
        new_path: Some("f".to_string()),
        hunks: vec![
            hunk(vec![line(DiffLineType::Deletion, "a\n", Some(3), None)]),
            hunk(vec![line(DiffLineType::Addition, "b\n", None, Some(20))]),
        ],
        is_binary: false,
    };
    assert_eq!(
        classify_file(&file),
        vec![change(3, 3, ChangeType::Deleted), change(20, 20, ChangeType::Added)]
    );
}

#[test]
fn binary_file_gives_no_ranges() {
    let binary = DiffFile {
        old_path: Some("img.png".to_string()),
        new_path: Some("img.png".to_string()),
        hunks: vec![],
        is_binary: true,
    };
    assert_eq!(classify_file(&binary), vec![]);
    let text = DiffFile {
        old_path: None,
        new_path: Some("new.txt".to_string()),
        hunks: vec![hunk(vec![line(DiffLineType::Addition, "n\n", None, Some(1))])],
        is_binary: false,
    };
    let diff = DiffOutput {
        files: vec![binary, text],
        stats: DiffStats { files_changed: 2, insertions: 1, deletions: 0 },
    };
    assert_eq!(classify(&diff), vec![change(1, 1, ChangeType::Added)]);
}

#[test]
fn empty_diff_gives_no_ranges() {
    let diff = DiffOutput::empty();
    assert!(diff.files.is_empty());
    assert_eq!(diff.stats, DiffStats { files_changed: 0, insertions: 0, deletions: 0 });
    assert_eq!(classify(&diff), vec![]);
}
