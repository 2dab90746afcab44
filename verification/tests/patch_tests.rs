use gitsage::diff::{DiffHunk, DiffLine, DiffLineType};
use gitsage::patch::{generate_hunk_patch, generate_line_patch, is_selected, marker_for, PatchMarker};

fn line(origin: DiffLineType, content: &str, old: Option<u32>, new: Option<u32>) -> DiffLine {
    DiffLine { origin, content: content.to_string(), old_lineno: old, new_lineno: new }
}

fn sample_hunk() -> DiffHunk {
    DiffHunk {
        old_start: 1,
        old_lines: 3,
        new_start: 1,
        new_lines: 3,
        header: "@@ -1,3 +1,3 @@\n".to_string(),
        lines: vec![
            line(DiffLineType::Context, "a\n", Some(1), Some(1)),
            line(DiffLineType::Deletion, "b\n", Some(2), None),
            line(DiffLineType::Addition, "X\n", None, Some(2)),
            line(DiffLineType::Context, "c\n", Some(3), Some(3)),
        ],
    }
}

fn additions_only_hunk() -> DiffHunk {
    DiffHunk {
        old_start: 10,
        old_lines: 2,
        new_start: 10,
        new_lines: 4,
        header: "@@ -10,2 +10,4 @@\n".to_string(),
        lines: vec![
            line(DiffLineType::Context, "keep\n", Some(10), Some(10)),
            line(DiffLineType::Addition, "one\n", None, Some(11)),
            line(DiffLineType::Addition, "two\n", None, Some(12)),
            line(DiffLineType::Context, "tail\n", Some(11), Some(13)),
        ],
    }
}

fn header_counts(patch: &str) -> String {
    patch.lines().nth(2).unwrap().to_string()
}

#[test]
fn hunk_patch_forward_is_exact() {
    let patch = generate_hunk_patch("src/main.rs", &sample_hunk(), false);
    assert_eq!(
        patch,
        "--- a/src/main.rs\n+++ b/src/main.rs\n@@ -1,3 +1,3 @@\n a\n-b\n+X\n c\n"
    );
}

#[test]
fn hunk_patch_reverse_swaps_markers_and_header() {
    let hunk = DiffHunk {
        old_start: 4,
        old_lines: 2,
        new_start: 7,
        new_lines: 3,
        header: String::new(),
        lines: vec![
            line(DiffLineType::Context, "a\n", Some(4), Some(7)),
            line(DiffLineType::Deletion, "b\n", Some(5), None),
            line(DiffLineType::Addition, "X\n", None, Some(8)),
            line(DiffLineType::Addition, "Y\n", None, Some(9)),
        ],
    };
    let patch = generate_hunk_patch("f.txt", &hunk, true);
    assert_eq!(patch, "--- a/f.txt\n+++ b/f.txt\n@@ -7,3 +4,2 @@\n a\n+b\n-X\n-Y\n");
}

#[test]
fn hunk_patch_terminates_every_line() {
    let hunk = DiffHunk {
        old_start: 1,
        old_lines: 1,
        new_start: 1,
        new_lines: 1,
        header: String::new(),
        lines: vec![
            line(DiffLineType::Deletion, "old", Some(1), None),
            line(DiffLineType::Addition, "", None, Some(1)),
        ],
    };
    let patch = generate_hunk_patch("f", &hunk, false);
    assert_eq!(patch, "--- a/f\n+++ b/f\n@@ -1,1 +1,1 @@\n-old\n+\n");
    assert!(patch.ends_with('\n'));
}

#[test]
fn hunk_patch_leaves_header_lines_out() {
    let hunk = DiffHunk {
        old_start: 1,
        old_lines: 1,
        new_start: 1,
        new_lines: 1,
        header: String::new(),
        lines: vec![
            line(DiffLineType::Header, "@@ -1 +1 @@", None, None),
            line(DiffLineType::Context, "a\n", Some(1), Some(1)),
        ],
    };
    assert_eq!(generate_hunk_patch("f", &hunk, false), "--- a/f\n+++ b/f\n@@ -1,1 +1,1 @@\n a\n");
    assert_eq!(
        generate_line_patch("f", &hunk, &[0, 1], false),
        "--- a/f\n+++ b/f\n@@ -1,1 +1,1 @@\n a\n"
    );
}

#[test]
fn hunk_patch_of_empty_hunk_has_only_headers() {
    let hunk = DiffHunk {
        old_start: 0,
        old_lines: 0,
        new_start: 0,
        new_lines: 0,
        header: String::new(),
        lines: vec![],
    };
    assert_eq!(generate_hunk_patch("p", &hunk, false), "--- a/p\n+++ b/p\n@@ -0,0 +0,0 @@\n");
}

#[test]
fn hunk_header_numbers_are_decimal() {
    let hunk = DiffHunk {
        old_start: 4294967295,
        old_lines: 1000,
        new_start: 109,
        new_lines: 10,
        header: String::new(),
        lines: vec![],
    };
    assert_eq!(header_counts(&generate_hunk_patch("p", &hunk, false)), "@@ -4294967295,1000 +109,10 @@");
    assert_eq!(header_counts(&generate_hunk_patch("p", &hunk, true)), "@@ -109,10 +4294967295,1000 @@");
}

#[test]
fn line_patch_selected_addition_only() {
    let patch = generate_line_patch("f", &sample_hunk(), &[2], false);
    assert_eq!(patch, "--- a/f\n+++ b/f\n@@ -1,3 +1,4 @@\n a\n b\n+X\n c\n");
}

#[test]
fn line_patch_selected_deletion_only() {
    let patch = generate_line_patch("f", &sample_hunk(), &[1], false);
    assert_eq!(patch, "--- a/f\n+++ b/f\n@@ -1,4 +1,3 @@\n a\n-b\n X\n c\n");
}

#[test]
fn line_patch_unselected_addition_is_context() {
    let patch = generate_line_patch("f", &additions_only_hunk(), &[1], false);
    assert_eq!(patch, "--- a/f\n+++ b/f\n@@ -10,3 +10,4 @@\n keep\n+one\n two\n tail\n");
}

#[test]
fn line_patch_reverse_counts_match_emitted_lines() {
    let patch = generate_line_patch("f", &sample_hunk(), &[2], true);
    assert_eq!(patch, "--- a/f\n+++ b/f\n@@ -1,4 +1,3 @@\n a\n b\n-X\n c\n");
    let patch = generate_line_patch("f", &sample_hunk(), &[1], true);
    assert_eq!(patch, "--- a/f\n+++ b/f\n@@ -1,3 +1,4 @@\n a\n+b\n X\n c\n");
}

#[test]
fn line_patch_reverse_swaps_start_lines() {
    let hunk = DiffHunk {
        old_start: 4,
        old_lines: 1,
        new_start: 7,
        new_lines: 2,
        header: String::new(),
        lines: vec![
            line(DiffLineType::Context, "a\n", Some(4), Some(7)),
            line(DiffLineType::Addition, "X\n", None, Some(8)),
        ],
    };
    let patch = generate_line_patch("f", &hunk, &[1], true);
    assert_eq!(patch, "--- a/f\n+++ b/f\n@@ -7,2 +4,1 @@\n a\n-X\n");
}

#[test]
fn line_patch_with_every_addition_has_hunk_patch_counts() {
    let hunk = additions_only_hunk();
    let by_lines = generate_line_patch("f", &hunk, &[1, 2], false);
    let by_hunk = generate_hunk_patch("f", &hunk, false);
    assert_eq!(header_counts(&by_lines), "@@ -10,2 +10,4 @@");
    assert_eq!(header_counts(&by_lines), header_counts(&by_hunk));
    assert_eq!(by_lines, by_hunk);
}

#[test]
fn line_patch_with_every_change_is_the_hunk_patch() {
    let hunk = sample_hunk();
    assert_eq!(generate_line_patch("f", &hunk, &[1, 2], false), generate_hunk_patch("f", &hunk, false));
    assert_eq!(generate_line_patch("f", &hunk, &[2, 1, 0], true), generate_hunk_patch("f", &hunk, true));
}

#[test]
fn line_patch_with_empty_selection_is_a_no_op() {
    for reverse in [false, true] {
        let patch = generate_line_patch("f", &sample_hunk(), &[], reverse);
        assert_eq!(patch, "--- a/f\n+++ b/f\n@@ -1,4 +1,4 @@\n a\n b\n X\n c\n");
        for body_line in patch.lines().skip(3) {
            assert!(body_line.starts_with(' '));
        }
    }
}

#[test]
fn line_patch_ignores_selection_of_context() {
    let with_context = generate_line_patch("f", &sample_hunk(), &[0, 2, 3], false);
    let without = generate_line_patch("f", &sample_hunk(), &[2], false);
    assert_eq!(with_context, without);
}

#[test]
fn marker_table_has_all_rows() {
    let addition = DiffLineType::Addition;
    let deletion = DiffLineType::Deletion;
    for reverse in [false, true] {
        for selected in [false, true] {
            assert_eq!(marker_for(DiffLineType::Context, reverse, selected), Some(PatchMarker::Keep));
            assert_eq!(marker_for(DiffLineType::Header, reverse, selected), None);
        }
    }
    assert_eq!(marker_for(addition, false, true), Some(PatchMarker::Add));
    assert_eq!(marker_for(deletion, true, true), Some(PatchMarker::Add));
    assert_eq!(marker_for(addition, false, false), Some(PatchMarker::Keep));
    assert_eq!(marker_for(deletion, true, false), Some(PatchMarker::Keep));
    assert_eq!(marker_for(deletion, false, true), Some(PatchMarker::Remove));
    assert_eq!(marker_for(addition, true, true), Some(PatchMarker::Remove));
    assert_eq!(marker_for(deletion, false, false), Some(PatchMarker::Keep));
    assert_eq!(marker_for(addition, true, false), Some(PatchMarker::Keep));
}

#[test]
fn selection_lookup() {
    assert!(is_selected(&[3, 1, 4], 4));
    assert!(is_selected(&[3, 1, 4], 3));
    assert!(!is_selected(&[3, 1, 4], 2));
    assert!(!is_selected(&[], 0));
}

#[test]
fn hunk_counts_check() {
    assert!(sample_hunk().counts_agree());
    assert!(additions_only_hunk().counts_agree());
    let mut wrong = sample_hunk();
    wrong.new_lines = 4;
    assert!(!wrong.counts_agree());
}
