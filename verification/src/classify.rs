//! Line classification: the runs of changed lines of a diff as ranges for an
//! editor's gutter.

use vstd::prelude::*;
use crate::diff::{
    file_views, hunk_views, line_views, DiffFile, DiffFileView, DiffHunk, DiffHunkView,
    DiffLineType, DiffLineView, DiffOutput, DiffOutputView,
};

verus! {

/// What happened to a range of lines.
#[derive(Debug, Clone, Copy, PartialEq, Eq, Structural)]
pub enum ChangeType {
    Added,
    Modified,
    Deleted,
}

/// A range of changed lines, both ends included.
///
/// An added range is numbered by the lines of the new file, a deleted range by
/// those of the old file. A modified range starts at a line of the old file
/// and ends at a line of the new file.
#[derive(Debug, Clone, Copy, PartialEq, Eq, Structural)]
pub struct LineChange {
    pub start_line: u32,
    pub end_line: u32,
    pub change_type: ChangeType,
}

/// The number, or `fallback` where the engine gave none.
pub open spec fn number_or(number: Option<u32>, fallback: u32) -> u32 {
    match number {
        Some(n) => n,
        None => fallback,
    }
}

/// The range that a first added line opens.
pub open spec fn opened_by_addition(line: DiffLineView) -> LineChange {
    LineChange {
        start_line: number_or(line.new_lineno, 1),
        end_line: number_or(line.new_lineno, 1),
        change_type: ChangeType::Added,
    }
}

/// The range that a first deleted line opens.
pub open spec fn opened_by_deletion(line: DiffLineView) -> LineChange {
    LineChange {
        start_line: number_or(line.old_lineno, 1),
        end_line: number_or(line.old_lineno, 1),
        change_type: ChangeType::Deleted,
    }
}

/// The range `open` after one more deleted line has joined it.
pub open spec fn extended_by_deletion(open: LineChange, line: DiffLineView) -> LineChange {
    LineChange {
        start_line: open.start_line,
        end_line: number_or(line.old_lineno, open.end_line),
        change_type: ChangeType::Deleted,
    }
}

/// The range `open` after one more added line has joined it. Additions that
/// follow deletions turn the deleted range into a modified one.
pub open spec fn extended_by_addition(open: LineChange, line: DiffLineView) -> LineChange {
    LineChange {
        start_line: open.start_line,
        end_line: number_or(line.new_lineno, open.end_line),
        change_type: if open.change_type is Deleted {
            ChangeType::Modified
        } else {
            open.change_type
        },
    }
}

/// The change ranges of the lines of one hunk.
///
/// Context and header lines belong to no range. An addition joins the range
/// of the addition or deletion directly before it, and else opens an added
/// range. A deletion joins the range of the deletion directly before it, and
/// else opens a deleted range. So a run of deletions with the run of
/// additions that directly follows it is one modified range.
pub open spec fn line_changes(lines: Seq<DiffLineView>) -> Seq<LineChange>
    decreases lines.len(),
{
    if lines.len() == 0 {
        Seq::empty()
    } else {
        let before = line_changes(lines.drop_last());
        let line = lines.last();
        let joins_deletion = lines.len() >= 2 && lines[lines.len() - 2].origin is Deletion;
        let joins_addition = lines.len() >= 2 && lines[lines.len() - 2].origin is Addition;
        match line.origin {
            DiffLineType::Addition => if joins_deletion || joins_addition {
                before.drop_last().push(extended_by_addition(before.last(), line))
            } else {
                before.push(opened_by_addition(line))
            },
            DiffLineType::Deletion => if joins_deletion {
                before.drop_last().push(extended_by_deletion(before.last(), line))
            } else {
                before.push(opened_by_deletion(line))
            },
            _ => before,
        }
    }
}

/// The change ranges of each hunk, in order.
pub open spec fn changes_by_hunk(hunks: Seq<DiffHunkView>) -> Seq<Seq<LineChange>> {
    hunks.map_values(|h: DiffHunkView| line_changes(h.lines))
}

/// The change ranges of a file: those of its hunks, one hunk after the other.
pub open spec fn file_changes(file: DiffFileView) -> Seq<LineChange> {
    changes_by_hunk(file.hunks).flatten()
}

/// The change ranges of each file, in order.
pub open spec fn changes_by_file(files: Seq<DiffFileView>) -> Seq<Seq<LineChange>> {
    files.map_values(|f: DiffFileView| file_changes(f))
}

/// The change ranges of a diff: those of its files, one file after the other.
pub open spec fn diff_changes(diff: DiffOutputView) -> Seq<LineChange> {
    changes_by_file(diff.files).flatten()
}

/// At the index `at` no run of changed lines is under way: the line there
/// neither continues additions or deletions nor turns deletions into a
/// modification.
pub open spec fn at_run_start(lines: Seq<DiffLineView>, at: int) -> bool {
    0 < at < lines.len() ==> {
        &&& lines[at - 1].origin is Addition ==> !(lines[at].origin is Addition)
        &&& lines[at - 1].origin is Deletion ==> !(lines[at].origin is Addition)
            && !(lines[at].origin is Deletion)
    }
}

/// The change ranges of a prefix of `lines`, from those of the prefix one
/// line shorter.
pub proof fn lemma_line_changes_step(lines: Seq<DiffLineView>, at: int)
    requires
        0 <= at < lines.len(),
    ensures
        line_changes(lines.take(at + 1)) == ({
            let before = line_changes(lines.take(at));
            let joins_deletion = at >= 1 && lines[at - 1].origin is Deletion;
            let joins_addition = at >= 1 && lines[at - 1].origin is Addition;
            match lines[at].origin {
                DiffLineType::Addition => if joins_deletion || joins_addition {
                    before.drop_last().push(extended_by_addition(before.last(), lines[at]))
                } else {
                    before.push(opened_by_addition(lines[at]))
                },
                DiffLineType::Deletion => if joins_deletion {
                    before.drop_last().push(extended_by_deletion(before.last(), lines[at]))
                } else {
                    before.push(opened_by_deletion(lines[at]))
                },
                _ => before,
            }
        }),
{
    let longer = lines.take(at + 1);
    assert(longer.drop_last() =~= lines.take(at));
    assert(longer.last() == lines[at]);
    if at >= 1 {
        assert(longer[longer.len() - 2] == lines[at - 1]);
    }
}

/// The number, or `fallback` where the engine gave none.
fn lineno_or(number: Option<u32>, fallback: u32) -> (n: u32)
    ensures
        n == number_or(number, fallback),
{
    match number {
        Some(n) => n,
        None => fallback,
    }
}

/// Classifies the lines of one hunk into change ranges, in one scan from the
/// first line to the last.
///
/// A run of additions gives one added range, from the new line number of its
/// first line to that of its last. A run of deletions directly followed by a
/// run of additions gives one modified range, from the old line number of the
/// first deletion to the new line number of the last addition. A run of
/// deletions that no addition follows gives one deleted range, in old line
/// numbers. Context lines give nothing.
pub fn classify_hunk(hunk: &DiffHunk) -> (changes: Vec<LineChange>)
    ensures
        changes@ == line_changes(hunk@.lines),
{
    let ghost views = line_views(hunk.lines@);
    let count = hunk.lines.len();
    let mut changes: Vec<LineChange> = Vec::new();
    let mut at: usize = 0;
    while at < count
        invariant
            count == hunk.lines.len(),
            views == line_views(hunk.lines@),
            at <= count,
            changes@ == line_changes(views.take(at as int)),
            at_run_start(views, at as int),
        decreases count - at,
    {
        let line = &hunk.lines[at];
        assert(views[at as int] == line@);
        proof {
            lemma_line_changes_step(views, at as int);
        }
        match line.origin {
            DiffLineType::Addition => {
                let start = lineno_or(line.new_lineno, 1);
                let mut end = start;
                let mut next = at + 1;
                while next < count && hunk.lines[next].origin == DiffLineType::Addition
                    invariant
                        count == hunk.lines.len(),
                        views == line_views(hunk.lines@),
                        at < next <= count,
                        views[next - 1].origin is Addition,
                        line_changes(views.take(next as int)) == changes@.push(
                            LineChange {
                                start_line: start,
                                end_line: end,
                                change_type: ChangeType::Added,
                            },
                        ),
                    decreases count - next,
                {
                    let ghost open = LineChange {
                        start_line: start,
                        end_line: end,
                        change_type: ChangeType::Added,
                    };
                    assert(views[next as int] == hunk.lines[next as int]@);
                    proof {
                        lemma_line_changes_step(views, next as int);
                        assert(changes@.push(open).drop_last() =~= changes@);
                    }
                    end = lineno_or(hunk.lines[next].new_lineno, end);
                    next = next + 1;
                }
                assert(next < count ==> views[next as int] == hunk.lines[next as int]@);
                changes.push(
                    LineChange { start_line: start, end_line: end, change_type: ChangeType::Added },
                );
                at = next;
            },
            DiffLineType::Deletion => {
                let start = lineno_or(line.old_lineno, 1);
                let mut end = start;
                let mut next = at + 1;
                while next < count && hunk.lines[next].origin == DiffLineType::Deletion
                    invariant
                        count == hunk.lines.len(),
                        views == line_views(hunk.lines@),
                        at < next <= count,
                        views[next - 1].origin is Deletion,
                        line_changes(views.take(next as int)) == changes@.push(
                            LineChange {
                                start_line: start,
                                end_line: end,
                                change_type: ChangeType::Deleted,
                            },
                        ),
                    decreases count - next,
                {
                    let ghost open = LineChange {
                        start_line: start,
                        end_line: end,
                        change_type: ChangeType::Deleted,
                    };
                    assert(views[next as int] == hunk.lines[next as int]@);
                    proof {
                        lemma_line_changes_step(views, next as int);
                        assert(changes@.push(open).drop_last() =~= changes@);
                    }
                    end = lineno_or(hunk.lines[next].old_lineno, end);
                    next = next + 1;
                }
                assert(next < count ==> views[next as int] == hunk.lines[next as int]@);
                if next < count && hunk.lines[next].origin == DiffLineType::Addition {
                    let ghost deleted = LineChange {
                        start_line: start,
                        end_line: end,
                        change_type: ChangeType::Deleted,
                    };
                    proof {
                        lemma_line_changes_step(views, next as int);
                        assert(changes@.push(deleted).drop_last() =~= changes@);
                    }
                    end = lineno_or(hunk.lines[next].new_lineno, end);
                    next = next + 1;
                    while next < count && hunk.lines[next].origin == DiffLineType::Addition
                        invariant
                            count == hunk.lines.len(),
                            views == line_views(hunk.lines@),
                            at < next <= count,
                            views[next - 1].origin is Addition,
                            line_changes(views.take(next as int)) == changes@.push(
                                LineChange {
                                    start_line: start,
                                    end_line: end,
                                    change_type: ChangeType::Modified,
                                },
                            ),
                        decreases count - next,
                    {
                        let ghost open = LineChange {
                            start_line: start,
                            end_line: end,
                            change_type: ChangeType::Modified,
                        };
                        assert(views[next as int] == hunk.lines[next as int]@);
                        proof {
                            lemma_line_changes_step(views, next as int);
                            assert(changes@.push(open).drop_last() =~= changes@);
                        }
                        end = lineno_or(hunk.lines[next].new_lineno, end);
                        next = next + 1;
                    }
                    assert(next < count ==> views[next as int] == hunk.lines[next as int]@);
                    changes.push(
                        LineChange {
                            start_line: start,
                            end_line: end,
                            change_type: ChangeType::Modified,
                        },
                    );
                } else {
                    changes.push(
                        LineChange {
                            start_line: start,
                            end_line: end,
                            change_type: ChangeType::Deleted,
                        },
                    );
                }
                at = next;
            },
            _ => {
                at = at + 1;
            },
        }
    }
    assert(views.take(count as int) =~= views);
    changes
}

/// Appends the elements of `more` to `all`.
fn append_changes(all: &mut Vec<LineChange>, more: &Vec<LineChange>)
    ensures
        final(all)@ == old(all)@ + more@,
{
    let ghost before = all@;
    let mut k: usize = 0;
    while k < more.len()
        invariant
            k <= more.len(),
            all@ == before + more@.take(k as int),
        decreases more.len() - k,
    {
        all.push(more[k]);
        assert(all@ =~= before + more@.take(k + 1));
        k = k + 1;
    }
    assert(more@.take(more.len() as int) =~= more@);
}

/// Classifies the lines of one file: the ranges of its hunks, one hunk after
/// the other. A file without hunks, as every binary file is, has no ranges.
pub fn classify_file(file: &DiffFile) -> (changes: Vec<LineChange>)
    ensures
        changes@ == file_changes(file@),
{
    let ghost hunks = hunk_views(file.hunks@);
    let mut changes: Vec<LineChange> = Vec::new();
    let mut h: usize = 0;
    assert(changes_by_hunk(hunks.take(0)) =~= Seq::<Seq<LineChange>>::empty());
    while h < file.hunks.len()
        invariant
            h <= file.hunks.len(),
            hunks == hunk_views(file.hunks@),
            changes@ == changes_by_hunk(hunks.take(h as int)).flatten(),
        decreases file.hunks.len() - h,
    {
        let of_hunk = classify_hunk(&file.hunks[h]);
        proof {
            let so_far = changes_by_hunk(hunks.take(h as int));
            assert(changes_by_hunk(hunks.take(h + 1)) =~= so_far.push(of_hunk@));
            so_far.lemma_flatten_push(of_hunk@);
        }
        append_changes(&mut changes, &of_hunk);
        h = h + 1;
    }
    assert(hunks.take(file.hunks.len() as int) =~= hunks);
    changes
}

/// Classifies the lines of files: the ranges of the files, one file after the
/// other, each in the order of its lines.
pub fn classify_files(files: &Vec<DiffFile>) -> (changes: Vec<LineChange>)
    ensures
        changes@ == changes_by_file(file_views(files@)).flatten(),
{
    let ghost views = file_views(files@);
    let mut changes: Vec<LineChange> = Vec::new();
    let mut f: usize = 0;
    assert(changes_by_file(views.take(0)) =~= Seq::<Seq<LineChange>>::empty());
    while f < files.len()
        invariant
            f <= files.len(),
            views == file_views(files@),
            changes@ == changes_by_file(views.take(f as int)).flatten(),
        decreases files.len() - f,
    {
        let of_file = classify_file(&files[f]);
        proof {
            let so_far = changes_by_file(views.take(f as int));
            assert(changes_by_file(views.take(f + 1)) =~= so_far.push(of_file@));
            so_far.lemma_flatten_push(of_file@);
        }
        append_changes(&mut changes, &of_file);
        f = f + 1;
    }
    assert(views.take(files.len() as int) =~= views);
    changes
}

/// Classifies a whole diff into change ranges for an editor's gutter: the
/// ranges of its files, one file after the other, each in the order of its
/// lines.
pub fn classify(diff: &DiffOutput) -> (changes: Vec<LineChange>)
    ensures
        changes@ == diff_changes(diff@),
{
    classify_files(&diff.files)
}

/// A file without hunks has no change ranges. Every binary file that keeps
/// the model's invariant is such a file.
pub proof fn binary_file_has_no_changes(file: DiffFileView)
    requires
        file.is_binary,
        file.binary_has_no_hunks(),
    ensures
        file_changes(file) == Seq::<LineChange>::empty(),
{
    assert(changes_by_hunk(file.hunks) =~= Seq::<Seq<LineChange>>::empty());
}

} // verus!
