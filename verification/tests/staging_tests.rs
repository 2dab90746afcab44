use gitsage::diff::{DiffFile, DiffHunk, DiffLine, DiffLineType, DiffOutput, DiffStats};
use gitsage::error::{DiffError, EngineFailure};
use gitsage::staging::{
    discard_hunk_request, find_hunk, selection_is_valid, stage_hunk_request, stage_lines_request,
    unstage_hunk_request, PatchRequest,
};

fn line(origin: DiffLineType, content: &str, old: Option<u32>, new: Option<u32>) -> DiffLine {
    DiffLine { origin, content: content.to_string(), old_lineno: old, new_lineno: new }
}

fn diff_with_one_hunk() -> DiffOutput {
    DiffOutput {
        files: vec![DiffFile {
            old_path: Some("f".to_string()),
            new_path: Some("f".to_string()),
            hunks: vec![DiffHunk {
                old_start: 1,
                old_lines: 2,
                new_start: 1,
                new_lines: 2,
                header: String::new(),
                lines: vec![
                    line(DiffLineType::Context, "a\n", Some(1), Some(1)),
                    line(DiffLineType::Deletion, "b\n", Some(2), None),
                    line(DiffLineType::Addition, "X\n", None, Some(2)),
                ],
            }],
            is_binary: false,
        }],
        stats: DiffStats { files_changed: 1, insertions: 1, deletions: 1 },
    }
}

#[test]
fn stage_hunk_applies_forward_to_index() {
    let request = stage_hunk_request("f", &diff_with_one_hunk(), 0).unwrap();
    assert_eq!(
        request,
        PatchRequest {
            patch: "--- a/f\n+++ b/f\n@@ -1,2 +1,2 @@\n a\n-b\n+X\n".to_string(),
            index_only: true,
            reverse: false,
        }
    );
}

#[test]
fn unstage_hunk_applies_reverse_to_index() {
    let request = unstage_hunk_request("f", &diff_with_one_hunk(), 0).unwrap();
    assert_eq!(
        request,
        PatchRequest {
            patch: "--- a/f\n+++ b/f\n@@ -1,2 +1,2 @@\n a\n+b\n-X\n".to_string(),
            index_only: true,
            reverse: true,
        }
    );
}

#[test]
fn discard_hunk_applies_reverse_to_working_tree() {
    let request = discard_hunk_request("f", &diff_with_one_hunk(), 0).unwrap();
    assert_eq!(request.patch, "--- a/f\n+++ b/f\n@@ -1,2 +1,2 @@\n a\n+b\n-X\n");
    assert!(!request.index_only);
    assert!(request.reverse);
}

#[test]
fn stage_lines_applies_chosen_lines() {
    let request = stage_lines_request("f", &diff_with_one_hunk(), 0, &[2]).unwrap();
    assert_eq!(request.patch, "--- a/f\n+++ b/f\n@@ -1,2 +1,3 @@\n a\n b\n+X\n");
    assert!(request.index_only);
    assert!(!request.reverse);
    let nothing = stage_lines_request("f", &diff_with_one_hunk(), 0, &[]).unwrap();
    assert_eq!(nothing.patch, "--- a/f\n+++ b/f\n@@ -1,3 +1,3 @@\n a\n b\n X\n");
}

#[test]
fn missing_diff_is_reported() {
    let empty = DiffOutput::empty();
    assert_eq!(stage_hunk_request("f", &empty, 0), Err(DiffError::NoDiffFound));
    assert_eq!(unstage_hunk_request("f", &empty, 0), Err(DiffError::NoDiffFound));
    assert_eq!(discard_hunk_request("f", &empty, 3), Err(DiffError::NoDiffFound));
    assert_eq!(stage_lines_request("f", &empty, 0, &[0]), Err(DiffError::NoDiffFound));
}

#[test]
fn missing_hunk_is_reported() {
    let diff = diff_with_one_hunk();
    assert_eq!(stage_hunk_request("f", &diff, 1), Err(DiffError::HunkIndexOutOfRange));
    assert_eq!(unstage_hunk_request("f", &diff, usize::MAX), Err(DiffError::HunkIndexOutOfRange));
    assert_eq!(discard_hunk_request("f", &diff, 7), Err(DiffError::HunkIndexOutOfRange));
    assert_eq!(stage_lines_request("f", &diff, 1, &[]), Err(DiffError::HunkIndexOutOfRange));
    assert_eq!(find_hunk(&diff, 1), Err(DiffError::HunkIndexOutOfRange));
    assert_eq!(find_hunk(&diff, 0), Ok(&diff.files[0].hunks[0]));
}

#[test]
fn missing_line_is_reported() {
    let diff = diff_with_one_hunk();
    assert_eq!(stage_lines_request("f", &diff, 0, &[3]), Err(DiffError::InvalidLineSelection));
    assert_eq!(stage_lines_request("f", &diff, 0, &[1, 99, 2]), Err(DiffError::InvalidLineSelection));
    assert!(selection_is_valid(&diff.files[0].hunks[0], &[0, 1, 2]));
    assert!(!selection_is_valid(&diff.files[0].hunks[0], &[0, 3]));
}

#[test]
fn binary_file_has_no_hunk_to_stage() {
    let diff = DiffOutput {
        files: vec![DiffFile {
            old_path: Some("i.png".to_string()),
            new_path: Some("i.png".to_string()),
            hunks: vec![],
            is_binary: true,
        }],
        stats: DiffStats { files_changed: 1, insertions: 0, deletions: 0 },
    };
    assert_eq!(stage_hunk_request("i.png", &diff, 0), Err(DiffError::HunkIndexOutOfRange));
}

#[test]
fn error_messages() {
    assert_eq!(DiffError::NoDiffFound.message(), "No diff found for file");
    assert_eq!(DiffError::HunkIndexOutOfRange.message(), "Hunk index out of range");
    assert_eq!(DiffError::InvalidLineSelection.message(), "Line index out of range");
    let failure = EngineFailure { code: -3, class: 9, message: "bad object".to_string() };
    assert_eq!(DiffError::Engine(failure).message(), "bad object");
    assert_eq!(DiffError::ApplyFailed("patch does not apply\n".to_string()).message(), "patch does not apply\n");
}
