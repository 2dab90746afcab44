//! The diff engine's output as plain data, and reading it out of the engine.
//!
//! The engine hands out a diff as a transient object. [`read_diff`] copies
//! what the parser needs out of it into an [`EngineDiff`], which is owned
//! plain data, and asks for no hunks of a delta that the engine flags as
//! binary.

use vstd::prelude::*;
use crate::diff::DiffStats;
use crate::error::{DiffError, DiffErrorView, EngineFailure};

verus! {

/// The engine's diff object.
#[verifier::external_type_specification]
#[verifier::external_body]
pub struct ExEngineDiffObject<'repo>(git2::Diff<'repo>);

/// The engine's line-level view of one delta.
#[verifier::external_type_specification]
#[verifier::external_body]
pub struct ExEnginePatchObject<'buffers>(git2::Patch<'buffers>);

/// The engine's error.
#[verifier::external_type_specification]
#[verifier::external_body]
pub struct ExEngineFailure(git2::Error);

/// The two snapshots that a diff compares.
#[derive(Debug, Clone, Copy, PartialEq, Eq, Structural)]
pub enum ComparisonMode {
    /// The last commit against the index: what is staged.
    TreeToIndex,
    /// The index against the working tree: what is not staged.
    IndexToWorkdir,
    /// A commit against its first parent, or against the empty tree where
    /// it has none.
    TreeToTree,
    /// The last commit against the working tree with the index laid over
    /// it: staged and unstaged changes together.
    TreeToWorkdirWithIndex,
}

impl ComparisonMode {
    /// The comparison that shows the changes to one file: the staged ones,
    /// or those that are not staged.
    pub fn for_file(staged: bool) -> (mode: ComparisonMode)
        ensures
            mode == (if staged {
                ComparisonMode::TreeToIndex
            } else {
                ComparisonMode::IndexToWorkdir
            }),
    {
        if staged {
            ComparisonMode::TreeToIndex
        } else {
            ComparisonMode::IndexToWorkdir
        }
    }
}

/// Whether a commit is compared with its first parent: it is if it has a
/// parent, and a commit without parent is compared with the empty tree.
pub fn compares_with_parent(parent_count: usize) -> (yes: bool)
    ensures
        yes == (parent_count > 0),
{
    parent_count > 0
}

/// One line as the engine gives it: its marker, its bytes and its line
/// numbers in the old and the new file.
#[derive(Debug, Clone, PartialEq, Eq)]
pub struct EngineLine {
    pub origin: char,
    pub content: Vec<u8>,
    pub old_lineno: Option<u32>,
    pub new_lineno: Option<u32>,
}

/// One hunk as the engine gives it.
#[derive(Debug, Clone, PartialEq, Eq)]
pub struct EngineHunk {
    pub old_start: u32,
    pub old_lines: u32,
    pub new_start: u32,
    pub new_lines: u32,
    pub header: Vec<u8>,
    pub lines: Vec<EngineLine>,
}

/// The mathematical value of an [`EngineLine`].
pub struct EngineLineView {
    pub origin: char,
    pub content: Seq<u8>,
    pub old_lineno: Option<u32>,
    pub new_lineno: Option<u32>,
}

impl View for EngineLine {
    type V = EngineLineView;

    open spec fn view(&self) -> EngineLineView {
        EngineLineView {
            origin: self.origin,
            content: self.content@,
            old_lineno: self.old_lineno,
            new_lineno: self.new_lineno,
        }
    }
}

/// The views of a sequence of engine lines, in order.
pub open spec fn engine_line_views(lines: Seq<EngineLine>) -> Seq<EngineLineView> {
    lines.map_values(|l: EngineLine| l@)
}

/// The mathematical value of an [`EngineHunk`].
pub struct EngineHunkView {
    pub old_start: u32,
    pub old_lines: u32,
    pub new_start: u32,
    pub new_lines: u32,
    pub header: Seq<u8>,
    pub lines: Seq<EngineLineView>,
}

impl EngineHunkView {
    /// The hunk with its four numbers and its header, and without lines.
    pub open spec fn without_lines(self) -> EngineHunkView {
        EngineHunkView { lines: Seq::empty(), ..self }
    }
}

impl View for EngineHunk {
    type V = EngineHunkView;

    open spec fn view(&self) -> EngineHunkView {
        EngineHunkView {
            old_start: self.old_start,
            old_lines: self.old_lines,
            new_start: self.new_start,
            new_lines: self.new_lines,
            header: self.header@,
            lines: engine_line_views(self.lines@),
        }
    }
}

/// The views of a sequence of engine hunks, in order.
pub open spec fn engine_hunk_views(hunks: Seq<EngineHunk>) -> Seq<EngineHunkView> {
    hunks.map_values(|h: EngineHunk| h@)
}

/// The bytes of an optional path.
pub open spec fn path_bytes(path: Option<Vec<u8>>) -> Option<Seq<u8>> {
    match path {
        Some(bytes) => Some(bytes@),
        None => None,
    }
}

/// What the engine's line-level view of a delta holds: its hunks in order,
/// each with its four numbers, its header bytes and its lines.
pub uninterp spec fn patch_hunks(patch: git2::Patch<'_>) -> Seq<EngineHunkView>;

/// What the engine's diff object holds of each of its deltas from the moment
/// it is made: the bytes of the old path and of the new path, each `None`
/// where the engine gives no path.
pub uninterp spec fn diff_paths(diff: git2::Diff<'_>) -> Seq<(Option<Seq<u8>>, Option<Seq<u8>>)>;

/// One side of a delta: the file's path, if the file exists on that side, and
/// whether the engine treats the file as binary.
#[derive(Debug, Clone, PartialEq, Eq)]
pub struct EngineFile {
    pub path: Option<Vec<u8>>,
    pub is_binary: bool,
}

/// The change to one file as the engine gives it.
#[derive(Debug, Clone, PartialEq, Eq)]
pub struct EngineDelta {
    pub old_file: EngineFile,
    pub new_file: EngineFile,
    pub hunks: Vec<EngineHunk>,
}

impl EngineDelta {
    /// The engine flags one of the two sides as binary.
    pub open spec fn binary(self) -> bool {
        self.old_file.is_binary || self.new_file.is_binary
    }

    /// Whether the engine flags one of the two sides as binary.
    pub fn is_binary(&self) -> (yes: bool)
        ensures
            yes == self.binary(),
    {
        self.old_file.is_binary || self.new_file.is_binary
    }
}

/// A whole diff as the engine gives it, with the engine's own statistics.
#[derive(Debug, Clone, PartialEq, Eq)]
pub struct EngineDiff {
    pub deltas: Vec<EngineDelta>,
    pub stats: DiffStats,
}

/// The deltas are as many as `paths`, and each has the old and the new path
/// that `paths` gives at its place.
pub open spec fn deltas_have_paths(
    deltas: Seq<EngineDelta>,
    paths: Seq<(Option<Seq<u8>>, Option<Seq<u8>>)>,
) -> bool {
    &&& deltas.len() == paths.len()
    &&& forall|i: int|
        0 <= i < deltas.len() ==> {
            &&& path_bytes((#[trigger] deltas[i]).old_file.path) == paths[i].0
            &&& path_bytes(deltas[i].new_file.path) == paths[i].1
        }
}

/// No delta that is flagged as binary carries hunks.
pub open spec fn no_binary_hunks(deltas: Seq<EngineDelta>) -> bool {
    forall|i: int|
        0 <= i < deltas.len() && (#[trigger] deltas[i]).binary() ==> deltas[i].hunks@.len() == 0
}

impl EngineDiff {
    /// The deltas are as many as `paths`, and each has the old and the new
    /// path that `paths` gives at its place.
    pub open spec fn has_paths(self, paths: Seq<(Option<Seq<u8>>, Option<Seq<u8>>)>) -> bool {
        deltas_have_paths(self.deltas@, paths)
    }

    /// No delta that is flagged as binary carries hunks.
    pub open spec fn asked_no_binary_hunks(self) -> bool {
        no_binary_hunks(self.deltas@)
    }
}

/// `git2::Diff::deltas`, for its length: the number of deltas that the diff
/// holds.
#[verifier::external_body]
fn delta_count(diff: &git2::Diff<'_>) -> (count: usize)
    ensures
        count == diff_paths(*diff).len(),
{
    diff.deltas().len()
}

/// `git2::Diff::get_delta`: the two sides of the delta at `index`, each with
/// its path bytes and its binary flag, and `None` exactly where the diff has
/// no delta at `index`. The paths are those that the diff holds; the binary
/// flags are what the engine knows of the two files at the moment of the
/// call.
#[verifier::external_body]
fn delta_files(diff: &git2::Diff<'_>, index: usize) -> (sides: Option<(EngineFile, EngineFile)>)
    ensures
        sides is Some <==> index < diff_paths(*diff).len(),
        sides matches Some(found) ==> {
            &&& path_bytes(found.0.path) == diff_paths(*diff)[index as int].0
            &&& path_bytes(found.1.path) == diff_paths(*diff)[index as int].1
        },
{
    let delta = diff.get_delta(index)?;
    let (old_file, new_file) = (delta.old_file(), delta.new_file());
    Some(
        (
            EngineFile {
                path: old_file.path_bytes().map(<[u8]>::to_vec),
                is_binary: old_file.is_binary(),
            },
            EngineFile {
                path: new_file.path_bytes().map(<[u8]>::to_vec),
                is_binary: new_file.is_binary(),
            },
        ),
    )
}

/// `git2::Patch::from_diff`: the line-level view of the delta at `index`,
/// `None` for an unchanged or binary file, or the engine's error. The engine
/// reads the content of the two files to make it.
#[verifier::external_body]
fn load_patch<'a>(diff: &git2::Diff<'a>, index: usize) -> (patch: Result<
    Option<git2::Patch<'a>>,
    git2::Error,
>) {
    git2::Patch::from_diff(diff, index)
}

/// `git2::Patch::num_hunks`: the number of hunks that the patch holds.
#[verifier::external_body]
fn hunk_count(patch: &git2::Patch<'_>) -> (count: usize)
    ensures
        count == patch_hunks(*patch).len(),
{
    patch.num_hunks()
}

/// `git2::Patch::hunk`: the hunk at `index` with its four numbers and its
/// header bytes, without its lines, and beside it the number of its lines;
/// or the engine's error. The call succeeds exactly for a hunk that the
/// patch holds.
#[verifier::external_body]
fn hunk_header(patch: &git2::Patch<'_>, index: usize) -> (hunk: Result<
    (EngineHunk, usize),
    git2::Error,
>)
    ensures
        hunk is Ok <==> index < patch_hunks(*patch).len(),
        hunk matches Ok(found) ==> {
            &&& found.0@ == patch_hunks(*patch)[index as int].without_lines()
            &&& found.1 == patch_hunks(*patch)[index as int].lines.len()
        },
{
    let (hunk, line_count) = patch.hunk(index)?;
    Ok(
        (
            EngineHunk {
                old_start: hunk.old_start(),
                old_lines: hunk.old_lines(),
                new_start: hunk.new_start(),
                new_lines: hunk.new_lines(),
                header: hunk.header().to_vec(),
                lines: Vec::new(),
            },
            line_count,
        ),
    )
}

/// `git2::Patch::line_in_hunk`: the line at `index` of the hunk `hunk`, with
/// its marker, its bytes and its line numbers, or the engine's error. The
/// call succeeds exactly for a line that the patch holds.
#[verifier::external_body]
fn hunk_line(patch: &git2::Patch<'_>, hunk: usize, index: usize) -> (line: Result<
    EngineLine,
    git2::Error,
>)
    ensures
        line is Ok <==> (hunk < patch_hunks(*patch).len()
            && index < patch_hunks(*patch)[hunk as int].lines.len()),
        line matches Ok(found) ==> found@ == patch_hunks(*patch)[hunk as int].lines[index as int],
{
    let line = patch.line_in_hunk(hunk, index)?;
    Ok(
        EngineLine {
            origin: line.origin(),
            content: line.content().to_vec(),
            old_lineno: line.old_lineno(),
            new_lineno: line.new_lineno(),
        },
    )
}

/// `git2::Diff::stats`: the engine's own counts of changed files, insertions
/// and deletions, or the engine's error.
#[verifier::external_body]
fn diff_stats(diff: &git2::Diff<'_>) -> (stats: Result<DiffStats, git2::Error>) {
    let stats = diff.stats()?;
    Ok(
        DiffStats {
            files_changed: stats.files_changed(),
            insertions: stats.insertions(),
            deletions: stats.deletions(),
        },
    )
}

/// `git2::Error::raw_code`, `git2::Error::raw_class` and
/// `git2::Error::message`: the three parts of the engine's error.
#[verifier::external_body]
fn failure_parts(failure: &git2::Error) -> (parts: EngineFailure) {
    EngineFailure {
        code: failure.raw_code() as i32,
        class: failure.raw_class() as i32,
        message: failure.message().to_string(),
    }
}

/// The library's error for a failure of the engine: the failure, unchanged.
fn engine_error(failure: EngineFailure) -> (error: DiffError)
    ensures
        error@ == DiffErrorView::Engine(failure@),
{
    DiffError::Engine(failure)
}

/// Reads the lines of one hunk of a patch: all of them, in the engine's
/// order. The reading succeeds exactly for a hunk that the patch holds.
fn read_lines(patch: &git2::Patch<'_>, hunk: usize) -> (lines: Result<Vec<EngineLine>, DiffError>)
    ensures
        lines is Ok <==> hunk < patch_hunks(*patch).len(),
        lines matches Ok(read) ==> engine_line_views(read@)
            == patch_hunks(*patch)[hunk as int].lines,
        lines matches Err(e) ==> e is Engine,
{
    let count = match hunk_header(patch, hunk) {
        Ok(found) => found.1,
        Err(failure) => {
            return Err(engine_error(failure_parts(&failure)));
        },
    };
    let ghost held = patch_hunks(*patch)[hunk as int].lines;
    let mut lines: Vec<EngineLine> = Vec::new();
    let mut index: usize = 0;
    assert(engine_line_views(lines@) =~= held.take(0));
    while index < count
        invariant
            index <= count,
            count == held.len(),
            hunk < patch_hunks(*patch).len(),
            held == patch_hunks(*patch)[hunk as int].lines,
            lines@.len() == index,
            engine_line_views(lines@) == held.take(index as int),
        decreases count - index,
    {
        match hunk_line(patch, hunk, index) {
            Ok(line) => {
                let ghost before = engine_line_views(lines@);
                lines.push(line);
                assert(engine_line_views(lines@) =~= before.push(line@));
                assert(held.take(index + 1) =~= held.take(index as int).push(held[index as int]));
            },
            Err(failure) => {
                return Err(engine_error(failure_parts(&failure)));
            },
        }
        index = index + 1;
    }
    assert(held.take(count as int) =~= held);
    Ok(lines)
}

/// Reads the hunks of a patch: all of them, in the engine's order, each with
/// its four numbers, its header bytes and all its lines. The reading always
/// succeeds: it asks the patch for nothing but what the patch holds.
fn read_hunks(patch: &git2::Patch<'_>) -> (hunks: Result<Vec<EngineHunk>, DiffError>)
    ensures
        hunks matches Ok(read) && engine_hunk_views(read@) == patch_hunks(*patch),
{
    let ghost held = patch_hunks(*patch);
    let count = hunk_count(patch);
    let mut hunks: Vec<EngineHunk> = Vec::new();
    let mut index: usize = 0;
    assert(engine_hunk_views(hunks@) =~= held.take(0));
    while index < count
        invariant
            index <= count,
            count == held.len(),
            held == patch_hunks(*patch),
            hunks@.len() == index,
            engine_hunk_views(hunks@) == held.take(index as int),
        decreases count - index,
    {
        let mut hunk = match hunk_header(patch, index) {
            Ok(found) => found.0,
            Err(failure) => {
                return Err(engine_error(failure_parts(&failure)));
            },
        };
        hunk.lines = read_lines(patch, index)?;
        assert(hunk@ =~= held[index as int]);
        let ghost before = engine_hunk_views(hunks@);
        hunks.push(hunk);
        assert(engine_hunk_views(hunks@) =~= before.push(held[index as int]));
        assert(held.take(index + 1) =~= held.take(index as int).push(held[index as int]));
        index = index + 1;
    }
    assert(held.take(count as int) =~= held);
    Ok(hunks)
}

/// Copies the deltas of a diff out of the engine's diff object.
///
/// The deltas come in the engine's order, one for each delta of the diff,
/// each with the paths that the diff holds and with the binary flags that
/// the engine gives. For a delta that is flagged as binary no line-level view
/// is asked for, so it has no hunks; for every other delta the hunks and
/// lines are read as the engine gives them. A diff without deltas gives no
/// deltas and cannot fail. A failure of the engine to make the line-level
/// view of a delta ends the reading and is returned unchanged.
pub fn read_deltas(diff: &git2::Diff<'_>) -> (deltas: Result<Vec<EngineDelta>, DiffError>)
    ensures
        diff_paths(*diff).len() == 0 ==> deltas is Ok,
        deltas matches Ok(read) ==> deltas_have_paths(read@, diff_paths(*diff))
            && no_binary_hunks(read@),
        deltas matches Err(e) ==> e is Engine,
{
    let ghost paths = diff_paths(*diff);
    let count = delta_count(diff);
    let mut deltas: Vec<EngineDelta> = Vec::new();
    let mut index: usize = 0;
    while index < count
        invariant
            index <= count,
            count == paths.len(),
            paths == diff_paths(*diff),
            deltas@.len() == index,
            forall|i: int|
                0 <= i < deltas@.len() ==> {
                    &&& path_bytes((#[trigger] deltas@[i]).old_file.path) == paths[i].0
                    &&& path_bytes(deltas@[i].new_file.path) == paths[i].1
                },
            no_binary_hunks(deltas@),
        ensures
            index == count,
        decreases count - index,
    {
        let sides = delta_files(diff, index);
        let (old_file, new_file) = match sides {
            Some(found) => found,
            None => {
                break ;
            },
        };
        let mut delta = EngineDelta { old_file, new_file, hunks: Vec::new() };
        if !delta.is_binary() {
            let patch = match load_patch(diff, index) {
                Ok(patch) => patch,
                Err(failure) => {
                    return Err(engine_error(failure_parts(&failure)));
                },
            };
            match patch {
                Some(patch) => {
                    delta.hunks = read_hunks(&patch)?;
                },
                None => {},
            }
        }
        deltas.push(delta);
        index = index + 1;
    }
    Ok(deltas)
}

/// Copies a diff out of the engine's diff object: the engine's own
/// statistics, and the deltas as [`read_deltas`] reads them.
///
/// The first failure of the engine, to give its statistics or to make the
/// line-level view of a delta, ends the reading and is returned unchanged.
pub fn read_diff(diff: &git2::Diff<'_>) -> (raw: Result<EngineDiff, DiffError>)
    ensures
        raw matches Ok(d) ==> d.has_paths(diff_paths(*diff)) && d.asked_no_binary_hunks(),
        raw matches Err(e) ==> e is Engine,
{
    let stats = match diff_stats(diff) {
        Ok(stats) => stats,
        Err(failure) => {
            return Err(engine_error(failure_parts(&failure)));
        },
    };
    let deltas = read_deltas(diff)?;
    Ok(EngineDiff { deltas, stats })
}

} // verus!
