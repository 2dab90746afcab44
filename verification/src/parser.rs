//! The diff parser: from the engine's output to the diff model.

use vstd::prelude::*;
use crate::diff::{
    file_views, hunk_views, line_views, new_side_count, old_side_count, DiffFile, DiffFileView,
    DiffHunk, DiffHunkView, DiffLine, DiffLineType, DiffLineView, DiffOutput, DiffOutputView,
};
use crate::engine::{
    deltas_have_paths, diff_paths, no_binary_hunks, read_deltas, read_diff, EngineDelta,
    EngineDiff, EngineHunk, EngineLine,
};
use crate::classify::{changes_by_file, classify_files, LineChange};
use crate::error::DiffError;
use crate::text::{decode_lossy, utf8_lossy};

verus! {

/// The model's line for a line of the engine.
pub open spec fn parsed_line(raw: EngineLine) -> DiffLineView {
    DiffLineView {
        origin: DiffLineType::of_marker(raw.origin),
        content: utf8_lossy(raw.content@),
        old_lineno: raw.old_lineno,
        new_lineno: raw.new_lineno,
    }
}

/// The model's lines for the lines of the engine, in the engine's order.
pub open spec fn parsed_lines(raw: Seq<EngineLine>) -> Seq<DiffLineView> {
    raw.map_values(|l: EngineLine| parsed_line(l))
}

/// The model's hunk for a hunk of the engine: the engine's four numbers, its
/// header text and its lines.
pub open spec fn parsed_hunk(raw: EngineHunk) -> DiffHunkView {
    DiffHunkView {
        old_start: raw.old_start,
        old_lines: raw.old_lines,
        new_start: raw.new_start,
        new_lines: raw.new_lines,
        header: utf8_lossy(raw.header@),
        lines: parsed_lines(raw.lines@),
    }
}

/// The model's hunks for the hunks of the engine, in the engine's order.
pub open spec fn parsed_hunks(raw: Seq<EngineHunk>) -> Seq<DiffHunkView> {
    raw.map_values(|h: EngineHunk| parsed_hunk(h))
}

/// The model's path for a path of the engine.
pub open spec fn parsed_path(raw: Option<Vec<u8>>) -> Option<Seq<char>> {
    match raw {
        Some(bytes) => Some(utf8_lossy(bytes@)),
        None => None,
    }
}

/// The model's file for a delta of the engine. The file is binary if the
/// engine flags either side as binary, and then it has no hunks.
pub open spec fn parsed_file(raw: EngineDelta) -> DiffFileView {
    DiffFileView {
        old_path: parsed_path(raw.old_file.path),
        new_path: parsed_path(raw.new_file.path),
        hunks: if raw.binary() {
            Seq::empty()
        } else {
            parsed_hunks(raw.hunks@)
        },
        is_binary: raw.binary(),
    }
}

/// The model's files for the deltas of the engine, in the engine's order.
pub open spec fn parsed_files(raw: Seq<EngineDelta>) -> Seq<DiffFileView> {
    raw.map_values(|d: EngineDelta| parsed_file(d))
}

/// The model of a diff of the engine, with the engine's own statistics.
pub open spec fn parsed_diff(raw: EngineDiff) -> DiffOutputView {
    DiffOutputView { files: parsed_files(raw.deltas@), stats: raw.stats }
}

/// Converts one line of the engine.
pub fn parse_line(raw: &EngineLine) -> (line: DiffLine)
    ensures
        line@ == parsed_line(*raw),
{
    DiffLine {
        origin: DiffLineType::from_marker(raw.origin),
        content: decode_lossy(raw.content.as_slice()),
        old_lineno: raw.old_lineno,
        new_lineno: raw.new_lineno,
    }
}

/// Converts one hunk of the engine, with all its lines in the engine's order.
pub fn parse_hunk(raw: &EngineHunk) -> (hunk: DiffHunk)
    ensures
        hunk@ == parsed_hunk(*raw),
{
    let mut lines: Vec<DiffLine> = Vec::new();
    let mut index: usize = 0;
    while index < raw.lines.len()
        invariant
            index <= raw.lines.len(),
            lines@.len() == index,
            line_views(lines@) == parsed_lines(raw.lines@.take(index as int)),
        decreases raw.lines.len() - index,
    {
        let line = parse_line(&raw.lines[index]);
        proof {
            let before = raw.lines@.take(index as int);
            let after = raw.lines@.take(index + 1);
            assert forall|j: int| 0 <= j < after.len() implies line_views(lines@.push(line))[j]
                == parsed_lines(after)[j] by {
                if j < index {
                    assert(line_views(lines@)[j] == parsed_lines(before)[j]);
                }
            }
            assert(line_views(lines@.push(line)) =~= parsed_lines(after));
        }
        lines.push(line);
        index = index + 1;
    }
    assert(raw.lines@.take(raw.lines.len() as int) =~= raw.lines@);
    DiffHunk {
        old_start: raw.old_start,
        old_lines: raw.old_lines,
        new_start: raw.new_start,
        new_lines: raw.new_lines,
        header: decode_lossy(raw.header.as_slice()),
        lines,
    }
}

/// Converts a path of the engine.
fn parse_path(raw: &Option<Vec<u8>>) -> (path: Option<String>)
    ensures
        crate::diff::text_view(path) == parsed_path(*raw),
{
    match raw {
        Some(bytes) => Some(decode_lossy(bytes.as_slice())),
        None => None,
    }
}

/// Converts one delta of the engine. A delta with a binary side gives a
/// binary file without hunks.
pub fn parse_delta(raw: &EngineDelta) -> (file: DiffFile)
    ensures
        file@ == parsed_file(*raw),
        file@.binary_has_no_hunks(),
{
    let is_binary = raw.is_binary();
    let mut hunks: Vec<DiffHunk> = Vec::new();
    if !is_binary {
        let mut index: usize = 0;
        while index < raw.hunks.len()
            invariant
                index <= raw.hunks.len(),
                hunks@.len() == index,
                hunk_views(hunks@) == parsed_hunks(raw.hunks@.take(index as int)),
            decreases raw.hunks.len() - index,
        {
            let hunk = parse_hunk(&raw.hunks[index]);
            proof {
                let before = raw.hunks@.take(index as int);
                let after = raw.hunks@.take(index + 1);
                assert forall|j: int| 0 <= j < after.len() implies hunk_views(
                    hunks@.push(hunk),
                )[j] == parsed_hunks(after)[j] by {
                    if j < index {
                        assert(hunk_views(hunks@)[j] == parsed_hunks(before)[j]);
                    }
                }
                assert(hunk_views(hunks@.push(hunk)) =~= parsed_hunks(after));
            }
            hunks.push(hunk);
            index = index + 1;
        }
        assert(raw.hunks@.take(raw.hunks.len() as int) =~= raw.hunks@);
    } else {
        assert(hunk_views(hunks@) =~= Seq::<DiffHunkView>::empty());
    }
    DiffFile {
        old_path: parse_path(&raw.old_file.path),
        new_path: parse_path(&raw.new_file.path),
        hunks,
        is_binary,
    }
}

/// Converts the deltas of the engine, in the engine's order. Each delta with
/// a binary side gives a binary file without hunks.
pub fn parse_deltas(raw: &Vec<EngineDelta>) -> (files: Vec<DiffFile>)
    ensures
        file_views(files@) == parsed_files(raw@),
        forall|i: int|
            0 <= i < files@.len() ==> (#[trigger] file_views(files@)[i]).binary_has_no_hunks(),
{
    let mut files: Vec<DiffFile> = Vec::new();
    let mut index: usize = 0;
    while index < raw.len()
        invariant
            index <= raw.len(),
            files@.len() == index,
            file_views(files@) == parsed_files(raw@.take(index as int)),
            forall|i: int|
                0 <= i < files@.len() ==> (#[trigger] file_views(files@)[i]).binary_has_no_hunks(),
        decreases raw.len() - index,
    {
        let file = parse_delta(&raw[index]);
        proof {
            let before = raw@.take(index as int);
            let after = raw@.take(index + 1);
            assert forall|j: int| 0 <= j < after.len() implies file_views(files@.push(file))[j]
                == parsed_files(after)[j] by {
                if j < index {
                    assert(file_views(files@)[j] == parsed_files(before)[j]);
                }
            }
            assert(file_views(files@.push(file)) =~= parsed_files(after));
        }
        files.push(file);
        index = index + 1;
    }
    assert(raw@.take(raw.len() as int) =~= raw@);
    files
}

/// Parses the engine's output into the diff model, and changes nothing in it.
///
/// Files, hunks and lines keep the engine's order. A line's marker `+` makes
/// it an addition, `-` a deletion and any other marker context; its line
/// numbers are the engine's; its content is decoded leniently. A delta with a
/// binary side gives a binary file without hunks. The statistics are the
/// engine's own and are not counted again.
pub fn parse(raw: &EngineDiff) -> (out: DiffOutput)
    ensures
        out@ == parsed_diff(*raw),
        forall|i: int| 0 <= i < out@.files.len() ==> (#[trigger] out@.files[i]).binary_has_no_hunks(),
{
    DiffOutput { files: parse_deltas(&raw.deltas), stats: raw.stats }
}

/// Parses the engine's diff object into the diff model.
///
/// The diff is read out of the engine and parsed as [`parse`] says: there is
/// one file for each delta of the diff, with the paths that the diff holds.
/// No hunks are asked of the engine for a binary delta. If a call into the
/// engine fails, the engine's failure is returned unchanged, with no part of
/// a result, and nothing is tried again.
pub fn parse_diff(diff: &git2::Diff<'_>) -> (out: Result<DiffOutput, DiffError>)
    ensures
        out matches Ok(parsed) ==> {
            &&& exists|raw: EngineDiff|
                raw.has_paths(diff_paths(*diff)) && raw.asked_no_binary_hunks() && parsed@
                    == parsed_diff(raw)
            &&& forall|i: int|
                0 <= i < parsed@.files.len() ==> (#[trigger] parsed@.files[i]).binary_has_no_hunks()
        },
        out matches Err(e) ==> e is Engine,
{
    let raw = read_diff(diff)?;
    Ok(parse(&raw))
}

/// Classifies the changed lines of the engine's diff object, which compares
/// the last commit with the working tree and the index, into ranges for an
/// editor's gutter.
///
/// The deltas are read out of the engine, without its statistics, and
/// parsed as [`parse_deltas`] says; the lines of the files are classified as
/// [`classify_files`] says. A diff without deltas gives no ranges and cannot
/// fail. A failure of the engine is returned unchanged.
pub fn line_changes(diff: &git2::Diff<'_>) -> (changes: Result<Vec<LineChange>, DiffError>)
    ensures
        diff_paths(*diff).len() == 0 ==> (changes matches Ok(ranges) && ranges@.len() == 0),
        changes matches Ok(ranges) ==> exists|raw: Seq<EngineDelta>|
            deltas_have_paths(raw, diff_paths(*diff)) && no_binary_hunks(raw) && ranges@
                == changes_by_file(parsed_files(raw)).flatten(),
        changes matches Err(e) ==> e is Engine,
{
    let raw = read_deltas(diff)?;
    let files = parse_deltas(&raw);
    let ranges = classify_files(&files);
    proof {
        if diff_paths(*diff).len() == 0 {
            assert(file_views(files@) =~= Seq::<DiffFileView>::empty());
            assert(changes_by_file(file_views(files@)) =~= Seq::<Seq<LineChange>>::empty());
        }
    }
    Ok(ranges)
}

/// The predicate "the engine's line exists in the old side": its marker is
/// not `+`.
pub open spec fn engine_old_side() -> spec_fn(EngineLine) -> bool {
    |l: EngineLine| l.origin != '+'
}

/// The predicate "the engine's line exists in the new side": its marker is
/// not `-`.
pub open spec fn engine_new_side() -> spec_fn(EngineLine) -> bool {
    |l: EngineLine| l.origin != '-'
}

/// The two counts of the engine's hunk are the numbers of its lines that are
/// not additions and that are not deletions.
pub open spec fn engine_counts_agree(raw: EngineHunk) -> bool {
    &&& raw.old_lines == raw.lines@.filter(engine_old_side()).len()
    &&& raw.new_lines == raw.lines@.filter(engine_new_side()).len()
}

/// The parsed lines have as many lines in each side as the engine's lines.
pub proof fn parsed_lines_keep_the_counts(raw: Seq<EngineLine>)
    ensures
        old_side_count(parsed_lines(raw)) == raw.filter(engine_old_side()).len(),
        new_side_count(parsed_lines(raw)) == raw.filter(engine_new_side()).len(),
    decreases raw.len(),
{
    if raw.len() == 0 {
        assert(parsed_lines(raw) =~= Seq::<DiffLineView>::empty());
        assert(raw.filter(engine_old_side()) =~= Seq::<EngineLine>::empty());
        assert(raw.filter(engine_new_side()) =~= Seq::<EngineLine>::empty());
    } else {
        let shorter = raw.drop_last();
        let last = raw.last();
        parsed_lines_keep_the_counts(shorter);
        assert(raw =~= shorter.push(last));
        assert(parsed_lines(raw) =~= parsed_lines(shorter).push(parsed_line(last)));
        crate::diff::lemma_count_push(parsed_lines(shorter), parsed_line(last));
        Seq::lemma_filter_push(shorter, last, engine_old_side());
        Seq::lemma_filter_push(shorter, last, engine_new_side());
    }
}

/// A parsed hunk keeps the model's invariant exactly when the engine's hunk
/// is consistent: its old count is the number of its context lines and
/// deletions and its new count the number of its context lines and additions,
/// if and only if the engine's two counts are the numbers of its lines that
/// are not additions and that are not deletions.
pub proof fn parsed_hunk_counts_agree(raw: EngineHunk)
    ensures
        parsed_hunk(raw).counts_agree() <==> engine_counts_agree(raw),
{
    parsed_lines_keep_the_counts(raw.lines@);
}

/// Every parsed file keeps the model's invariant: a binary file has no hunks.
pub proof fn parsed_binary_file_has_no_hunks(raw: EngineDelta)
    ensures
        parsed_file(raw).binary_has_no_hunks(),
        parsed_file(raw).is_binary <==> raw.old_file.is_binary || raw.new_file.is_binary,
{
}

} // verus!
