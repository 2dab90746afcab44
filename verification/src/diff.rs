//! The structural model of a diff: files, hunks and lines.
//!
//! Every type here is plain owned data. Each has a mathematical view, and the
//! contracts of the parser, the patch synthesizer and the line classifier are
//! stated over those views.

use vstd::prelude::*;

verus! {

/// What a line of a hunk is, relative to the two sides of the comparison.
#[derive(Debug, Clone, Copy, PartialEq, Eq, Structural)]
pub enum DiffLineType {
    Context,
    Addition,
    Deletion,
    Header,
}

impl DiffLineType {
    /// The line exists in the old side of the comparison.
    pub open spec fn on_old_side(self) -> bool {
        self is Context || self is Deletion
    }

    /// The line exists in the new side of the comparison.
    pub open spec fn on_new_side(self) -> bool {
        self is Context || self is Addition
    }

    /// The line type that the engine's line marker stands for.
    pub open spec fn of_marker(marker: char) -> DiffLineType {
        if marker == '+' {
            DiffLineType::Addition
        } else if marker == '-' {
            DiffLineType::Deletion
        } else {
            DiffLineType::Context
        }
    }

    /// Maps the engine's line marker to a line type: `+` is an addition, `-` a
    /// deletion, and every other marker is context.
    pub fn from_marker(marker: char) -> (origin: DiffLineType)
        ensures
            origin == Self::of_marker(marker),
    {
        if marker == '+' {
            DiffLineType::Addition
        } else if marker == '-' {
            DiffLineType::Deletion
        } else {
            DiffLineType::Context
        }
    }
}

/// One line of a hunk.
#[derive(Debug, Clone, PartialEq, Eq)]
pub struct DiffLine {
    pub origin: DiffLineType,
    pub content: String,
    pub old_lineno: Option<u32>,
    pub new_lineno: Option<u32>,
}

/// The mathematical value of a [`DiffLine`].
pub struct DiffLineView {
    pub origin: DiffLineType,
    pub content: Seq<char>,
    pub old_lineno: Option<u32>,
    pub new_lineno: Option<u32>,
}

impl View for DiffLine {
    type V = DiffLineView;

    open spec fn view(&self) -> DiffLineView {
        DiffLineView {
            origin: self.origin,
            content: self.content@,
            old_lineno: self.old_lineno,
            new_lineno: self.new_lineno,
        }
    }
}

/// The views of a sequence of lines, in order.
pub open spec fn line_views(lines: Seq<DiffLine>) -> Seq<DiffLineView> {
    lines.map_values(|l: DiffLine| l@)
}

/// The predicate "this line exists in the old side".
pub open spec fn old_side() -> spec_fn(DiffLineView) -> bool {
    |l: DiffLineView| l.origin.on_old_side()
}

/// The predicate "this line exists in the new side".
pub open spec fn new_side() -> spec_fn(DiffLineView) -> bool {
    |l: DiffLineView| l.origin.on_new_side()
}

/// How many of `lines` exist in the old side: context lines and deletions.
pub open spec fn old_side_count(lines: Seq<DiffLineView>) -> nat {
    lines.filter(old_side()).len()
}

/// How many of `lines` exist in the new side: context lines and additions.
pub open spec fn new_side_count(lines: Seq<DiffLineView>) -> nat {
    lines.filter(new_side()).len()
}

/// A contiguous block of a diff.
#[derive(Debug, Clone, PartialEq, Eq)]
pub struct DiffHunk {
    pub old_start: u32,
    pub old_lines: u32,
    pub new_start: u32,
    pub new_lines: u32,
    pub header: String,
    pub lines: Vec<DiffLine>,
}

/// The mathematical value of a [`DiffHunk`].
pub struct DiffHunkView {
    pub old_start: u32,
    pub old_lines: u32,
    pub new_start: u32,
    pub new_lines: u32,
    pub header: Seq<char>,
    pub lines: Seq<DiffLineView>,
}

impl DiffHunkView {
    /// The hunk's invariant: its two line counts are the numbers of its lines
    /// that exist in the old side and in the new side.
    pub open spec fn counts_agree(self) -> bool {
        &&& self.old_lines == old_side_count(self.lines)
        &&& self.new_lines == new_side_count(self.lines)
    }
}

impl View for DiffHunk {
    type V = DiffHunkView;

    open spec fn view(&self) -> DiffHunkView {
        DiffHunkView {
            old_start: self.old_start,
            old_lines: self.old_lines,
            new_start: self.new_start,
            new_lines: self.new_lines,
            header: self.header@,
            lines: line_views(self.lines@),
        }
    }
}

/// The views of a sequence of hunks, in order.
pub open spec fn hunk_views(hunks: Seq<DiffHunk>) -> Seq<DiffHunkView> {
    hunks.map_values(|h: DiffHunk| h@)
}

/// The view of an optional string.
pub open spec fn text_view(text: Option<String>) -> Option<Seq<char>> {
    match text {
        Some(s) => Some(s@),
        None => None,
    }
}

/// The change to one file.
#[derive(Debug, Clone, PartialEq, Eq)]
pub struct DiffFile {
    pub old_path: Option<String>,
    pub new_path: Option<String>,
    pub hunks: Vec<DiffHunk>,
    pub is_binary: bool,
}

/// The mathematical value of a [`DiffFile`].
pub struct DiffFileView {
    pub old_path: Option<Seq<char>>,
    pub new_path: Option<Seq<char>>,
    pub hunks: Seq<DiffHunkView>,
    pub is_binary: bool,
}

impl DiffFileView {
    /// The file's invariant: a binary file carries no hunks.
    pub open spec fn binary_has_no_hunks(self) -> bool {
        self.is_binary ==> self.hunks.len() == 0
    }

    /// The file exists only in the new side.
    pub open spec fn is_addition(self) -> bool {
        self.old_path is None && self.new_path is Some
    }

    /// The file exists only in the old side.
    pub open spec fn is_deletion(self) -> bool {
        self.old_path is Some && self.new_path is None
    }

    /// The file exists in both sides, under two different paths.
    pub open spec fn is_rename(self) -> bool {
        self.old_path is Some && self.new_path is Some && self.old_path != self.new_path
    }
}

impl View for DiffFile {
    type V = DiffFileView;

    open spec fn view(&self) -> DiffFileView {
        DiffFileView {
            old_path: text_view(self.old_path),
            new_path: text_view(self.new_path),
            hunks: hunk_views(self.hunks@),
            is_binary: self.is_binary,
        }
    }
}

/// The views of a sequence of files, in order.
pub open spec fn file_views(files: Seq<DiffFile>) -> Seq<DiffFileView> {
    files.map_values(|f: DiffFile| f@)
}

/// Aggregate counts over a whole diff, as the diff engine reports them.
#[derive(Debug, Clone, Copy, PartialEq, Eq, Structural)]
pub struct DiffStats {
    pub files_changed: usize,
    pub insertions: usize,
    pub deletions: usize,
}

/// A complete diff of one or more files.
#[derive(Debug, Clone, PartialEq, Eq)]
pub struct DiffOutput {
    pub files: Vec<DiffFile>,
    pub stats: DiffStats,
}

/// The mathematical value of a [`DiffOutput`].
pub struct DiffOutputView {
    pub files: Seq<DiffFileView>,
    pub stats: DiffStats,
}

impl View for DiffOutput {
    type V = DiffOutputView;

    open spec fn view(&self) -> DiffOutputView {
        DiffOutputView { files: file_views(self.files@), stats: self.stats }
    }
}

impl DiffOutput {
    /// The diff of two equal snapshots: no files, and all statistics zero.
    pub fn empty() -> (out: DiffOutput)
        ensures
            out@.files == Seq::<DiffFileView>::empty(),
            out@.stats == (DiffStats { files_changed: 0, insertions: 0, deletions: 0 }),
    {
        let out = DiffOutput {
            files: Vec::new(),
            stats: DiffStats { files_changed: 0, insertions: 0, deletions: 0 },
        };
        assert(out@.files =~= Seq::<DiffFileView>::empty());
        out
    }
}

impl DiffHunk {
    /// Whether the hunk's two line counts agree with its lines.
    pub fn counts_agree(&self) -> (ok: bool)
        ensures
            ok == self@.counts_agree(),
    {
        let mut old_count: usize = 0;
        let mut new_count: usize = 0;
        let mut i: usize = 0;
        while i < self.lines.len()
            invariant
                i <= self.lines.len(),
                old_count == old_side_count(line_views(self.lines@.take(i as int))),
                new_count == new_side_count(line_views(self.lines@.take(i as int))),
                old_count <= i,
                new_count <= i,
            decreases self.lines.len() - i,
        {
            proof {
                lemma_counts_step(self.lines@, i as int);
            }
            let origin = self.lines[i].origin;
            match origin {
                DiffLineType::Context => {
                    old_count = old_count + 1;
                    new_count = new_count + 1;
                },
                DiffLineType::Addition => {
                    new_count = new_count + 1;
                },
                DiffLineType::Deletion => {
                    old_count = old_count + 1;
                },
                DiffLineType::Header => {},
            }
            i = i + 1;
        }
        assert(self.lines@.take(self.lines.len() as int) =~= self.lines@);
        old_count == self.old_lines as usize && new_count == self.new_lines as usize
    }
}

/// Extending a prefix of `lines` by its next line extends the two counts by
/// that line's share.
pub proof fn lemma_counts_step(lines: Seq<DiffLine>, i: int)
    requires
        0 <= i < lines.len(),
    ensures
        old_side_count(line_views(lines.take(i + 1))) == old_side_count(
            line_views(lines.take(i)),
        ) + (if lines[i].origin.on_old_side() {
            1nat
        } else {
            0nat
        }),
        new_side_count(line_views(lines.take(i + 1))) == new_side_count(
            line_views(lines.take(i)),
        ) + (if lines[i].origin.on_new_side() {
            1nat
        } else {
            0nat
        }),
{
    let before = line_views(lines.take(i));
    let after = line_views(lines.take(i + 1));
    assert(after =~= before.push(lines[i]@));
    lemma_count_push(before, lines[i]@);
}

/// Appending one line extends the two counts by that line's share.
pub proof fn lemma_count_push(lines: Seq<DiffLineView>, line: DiffLineView)
    ensures
        old_side_count(lines.push(line)) == old_side_count(lines) + (if line.origin.on_old_side() {
            1nat
        } else {
            0nat
        }),
        new_side_count(lines.push(line)) == new_side_count(lines) + (if line.origin.on_new_side() {
            1nat
        } else {
            0nat
        }),
{
    Seq::lemma_filter_push(lines, line, old_side());
    Seq::lemma_filter_push(lines, line, new_side());
}

} // verus!
