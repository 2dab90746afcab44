use gitsage::blame::{blame_lines, hunks_in_range, BlameHunk};
use gitsage::classify::{ChangeType, LineChange};
use gitsage::conflict::{
    conflict_file, conflict_path, find_conflict, no_conflict_message, ConflictSides,
};
use gitsage::engine::ComparisonMode;
use gitsage::history::{file_changed, message_matches, page_step, search_key, WalkStep};
use gitsage::parser::line_changes;
use gitsage::recent::{remember_repo, RepoEntry};
use gitsage::repository::{BlameLine, ConflictFile};
use gitsage::strings::{
    chars_of, ends_with_text, first_index, has_text, last_index, matches_at, starts_with_text,
};
use gitsage::watcher::{has_file_changes, is_git_internal};

fn chars(text: &str) -> Vec<char> {
    text.chars().collect()
}

#[test]
fn text_scanning() {
    assert_eq!(chars_of("h\u{e9}!"), vec!['h', '\u{e9}', '!']);
    assert_eq!(chars_of(""), Vec::<char>::new());
    assert_eq!(first_index(&chars("a/b/c"), '/'), Some(1));
    assert_eq!(last_index(&chars("a/b/c"), '/'), Some(3));
    assert_eq!(first_index(&chars("abc"), '/'), None);
    assert_eq!(last_index(&chars(""), '/'), None);
    assert!(matches_at(&chars("hello"), &chars("ll"), 2));
    assert!(!matches_at(&chars("hello"), &chars("ll"), 3));
    assert!(!matches_at(&chars("hello"), &chars("lo"), 4));
    assert!(matches_at(&chars("hello"), &chars(""), 5));
    assert!(!matches_at(&chars("hello"), &chars(""), 6));
    assert!(starts_with_text(&chars("hello"), &chars("he")));
    assert!(!starts_with_text(&chars("hello"), &chars("el")));
    assert!(ends_with_text(&chars("repo.git"), &chars(".git")));
    assert!(!ends_with_text(&chars("git"), &chars(".git")));
    assert!(has_text(&chars("a.git/x"), &chars(".git/")));
    assert!(has_text(&chars("abc"), &chars("")));
    assert!(has_text(&chars("abc"), &chars("abc")));
    assert!(!has_text(&chars("abc"), &chars("abcd")));
    assert!(!has_text(&chars("abab"), &chars("bb")));
}

#[test]
fn paged_walk() {
    assert_eq!(page_step(0, 0, 2, 1), WalkStep::Skip);
    assert_eq!(page_step(1, 0, 2, 1), WalkStep::Take);
    assert_eq!(page_step(2, 1, 2, 1), WalkStep::Take);
    assert_eq!(page_step(3, 2, 2, 1), WalkStep::Stop);
    assert_eq!(page_step(0, 0, 0, 0), WalkStep::Stop);
    assert_eq!(page_step(0, 0, 0, 5), WalkStep::Skip);
    let walk: Vec<u32> = (0..10).collect();
    let mut taken = Vec::new();
    for (position, commit) in walk.iter().enumerate() {
        match page_step(position, taken.len(), 3, 4) {
            WalkStep::Skip => {}
            WalkStep::Take => taken.push(*commit),
            WalkStep::Stop => break,
        }
    }
    assert_eq!(taken, vec![4, 5, 6]);
}

#[test]
fn file_history() {
    let a = Some("aaaa".to_string());
    let b = Some("bbbb".to_string());
    assert!(file_changed(false, &a, &None));
    assert!(!file_changed(false, &None, &None));
    assert!(file_changed(false, &a, &a));
    assert!(file_changed(true, &a, &b));
    assert!(!file_changed(true, &a, &a));
    assert!(file_changed(true, &a, &None));
    assert!(file_changed(true, &None, &b));
    assert!(!file_changed(true, &None, &None));
}

#[test]
fn commit_search() {
    let key = search_key("BuG");
    assert_eq!(key, "bug");
    assert!(message_matches("Fix a BUG in parser", &key));
    assert!(message_matches("debugging", &key));
    assert!(!message_matches("Add feature", &key));
    assert!(message_matches("anything", &search_key("")));
    assert!(message_matches("\u{c4}rger", &search_key("\u{e4}RG")));
}

fn blame_hunk(start_line: usize, line_count: usize, commit: &str) -> BlameHunk {
    BlameHunk {
        start_line,
        line_count,
        commit_id: commit.to_string(),
        author_name: "Ann".to_string(),
        author_email: "ann@example.org".to_string(),
        timestamp: 1700000000,
    }
}

fn blame_line(line_no: u32, commit: &str, content: &str) -> BlameLine {
    BlameLine {
        line_no,
        commit_id: commit.to_string(),
        author_name: "Ann".to_string(),
        author_email: "ann@example.org".to_string(),
        timestamp: 1700000000,
        content: content.to_string(),
    }
}

#[test]
fn blame_of_a_file() {
    let file: Vec<String> = vec!["one".to_string(), "two".to_string(), "three".to_string()];
    let hunks = vec![blame_hunk(1, 2, "c1"), blame_hunk(3, 2, "c2"), blame_hunk(9, 0, "c3")];
    assert!(hunks_in_range(&hunks));
    assert_eq!(
        blame_lines(&hunks, &file),
        vec![
            blame_line(1, "c1", "one"),
            blame_line(2, "c1", "two"),
            blame_line(3, "c2", "three"),
            blame_line(4, "c2", ""),
        ]
    );
    assert_eq!(blame_lines(&[], &file), vec![]);
}

#[test]
fn blame_line_numbers_must_fit() {
    assert!(!hunks_in_range(&[blame_hunk(0, 1, "c")]));
    assert!(hunks_in_range(&[blame_hunk(4294967295, 1, "c")]));
    assert!(!hunks_in_range(&[blame_hunk(4294967295, 2, "c")]));
    assert!(!hunks_in_range(&[blame_hunk(1, 1, "c"), blame_hunk(0, 0, "c")]));
}

fn sides(ancestor: Option<&[u8]>, our: Option<&[u8]>, their: Option<&[u8]>) -> ConflictSides {
    ConflictSides {
        ancestor: ancestor.map(|b| b.to_vec()),
        our: our.map(|b| b.to_vec()),
        their: their.map(|b| b.to_vec()),
    }
}

#[test]
fn conflicts() {
    assert_eq!(conflict_path(&sides(Some(b"base"), Some(b"ours"), Some(b"theirs"))), "ours");
    assert_eq!(conflict_path(&sides(Some(b"base"), None, Some(b"theirs"))), "theirs");
    assert_eq!(conflict_path(&sides(Some(b"base"), None, None)), "base");
    assert_eq!(conflict_path(&sides(None, None, None)), "");
    assert_eq!(conflict_path(&sides(Some(b"base"), Some(&[0xff, b'x']), None)), "");
    assert_eq!(conflict_path(&sides(None, Some("d/\u{e9}.txt".as_bytes()), None)), "d/\u{e9}.txt");
    assert_eq!(
        conflict_file(&sides(None, Some(b"f"), Some(b"f"))),
        ConflictFile { path: "f".to_string(), has_base: false, has_ours: true, has_theirs: true }
    );
    let all = vec![
        sides(Some(b"a"), Some(b"a"), Some(b"a")),
        sides(None, None, Some(b"b")),
        sides(Some(b"b"), None, None),
    ];
    assert_eq!(find_conflict(&all, "b"), Some(1));
    assert_eq!(find_conflict(&all, "a"), Some(0));
    assert_eq!(find_conflict(&all, "c"), None);
    assert_eq!(no_conflict_message("src/x.rs"), "No conflict found for path: src/x.rs");
}

fn opened(path: &str, at: i64) -> RepoEntry {
    RepoEntry { path: path.to_string(), name: path.trim_start_matches('/').to_string(), last_opened: at }
}

#[test]
fn recent_repositories() {
    let list = remember_repo(vec![], opened("/a", 1));
    assert_eq!(list, vec![opened("/a", 1)]);
    let list = remember_repo(list, opened("/b", 2));
    assert_eq!(list, vec![opened("/b", 2), opened("/a", 1)]);
    let list = remember_repo(list, opened("/a", 3));
    assert_eq!(list, vec![opened("/a", 3), opened("/b", 2)]);
}

#[test]
fn recent_repositories_keep_twenty() {
    let mut list = Vec::new();
    for n in 0..25 {
        list = remember_repo(list, opened(&format!("/r{}", n), n));
    }
    assert_eq!(list.len(), 20);
    assert_eq!(list[0], opened("/r24", 24));
    assert_eq!(list[19], opened("/r5", 5));
    let list = remember_repo(list, opened("/r5", 99));
    assert_eq!(list.len(), 20);
    assert_eq!(list[0], opened("/r5", 99));
    assert_eq!(list[19], opened("/r6", 6));
}

#[test]
fn watched_paths() {
    assert!(is_git_internal("/repo/.git/index.lock"));
    assert!(is_git_internal("C:\\repo\\.git\\HEAD"));
    assert!(!is_git_internal("/repo/.gitignore"));
    assert!(!is_git_internal("/repo/src/main.rs"));
    assert!(!is_git_internal("/repo/.git"));
    assert!(has_file_changes(&["/r/.git/HEAD".to_string(), "/r/a.txt".to_string()]));
    assert!(!has_file_changes(&["/r/.git/HEAD".to_string(), "/r/.git/index".to_string()]));
    assert!(!has_file_changes(&[]));
}

#[test]
fn comparison_modes() {
    assert_eq!(ComparisonMode::for_file(true), ComparisonMode::TreeToIndex);
    assert_eq!(ComparisonMode::for_file(false), ComparisonMode::IndexToWorkdir);
}

const PATCH: &str = "diff --git a/f.txt b/f.txt\n\
index 1111111..2222222 100644\n\
--- a/f.txt\n\
+++ b/f.txt\n\
@@ -1,3 +1,3 @@\n a\n-b\n+X\n c\n\
@@ -10,2 +10,3 @@\n j\n k\n+l\n";

#[test]
fn line_changes_of_an_engine_diff() {
    let diff = git2::Diff::from_buffer(PATCH.as_bytes()).unwrap();
    assert_eq!(
        line_changes(&diff).unwrap(),
        vec![
            LineChange { start_line: 2, end_line: 2, change_type: ChangeType::Modified },
            LineChange { start_line: 12, end_line: 12, change_type: ChangeType::Added },
        ]
    );
}

#[test]
fn root_commit_is_compared_with_the_empty_tree() {
    assert!(!gitsage::engine::compares_with_parent(0));
    assert!(gitsage::engine::compares_with_parent(1));
    assert!(gitsage::engine::compares_with_parent(2));
}

#[test]
fn diff_without_deltas_has_no_line_changes() {
    let diff = git2::Diff::from_buffer(b"").unwrap();
    assert_eq!(line_changes(&diff), Ok(vec![]));
    assert_eq!(gitsage::engine::read_deltas(&diff), Ok(vec![]));
}

#[test]
fn context_lines_alone_give_no_line_changes() {
    let patch = "diff --git a/f.txt b/f.txt\n\
index 1111111..2222222 100644\n\
--- a/f.txt\n\
+++ b/f.txt\n\
@@ -1,2 +1,2 @@\n a\n b\n";
    let diff = git2::Diff::from_buffer(patch.as_bytes()).unwrap();
    assert_eq!(line_changes(&diff), Ok(vec![]));
}
