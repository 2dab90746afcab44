//! Blame: each line of a file with the commit that last changed it.

use vstd::prelude::*;
use crate::repository::BlameLine;

verus! {

/// A run of lines that one commit changed last, as the engine gives it.
#[derive(Debug, Clone, PartialEq, Eq)]
pub struct BlameHunk {
    /// The number of the first line of the run, counted from 1.
    pub start_line: usize,
    /// How many lines the run has.
    pub line_count: usize,
    pub commit_id: String,
    pub author_name: String,
    pub author_email: String,
    pub timestamp: i64,
}

impl BlameHunk {
    /// The line numbers of the run are line numbers: they start at 1 and
    /// fit in 32 bits.
    pub open spec fn in_range(self) -> bool {
        1 <= self.start_line <= u32::MAX && self.start_line + self.line_count <= u32::MAX as int
            + 1
    }

    /// Whether the line numbers of the run start at 1 and fit in 32 bits.
    pub fn is_in_range(&self) -> (ok: bool)
        ensures
            ok == self.in_range(),
    {
        1 <= self.start_line && self.start_line <= 0xffff_ffff && self.line_count <= 0xffff_ffff
            - (self.start_line - 1)
    }
}

/// The mathematical value of a [`BlameLine`].
pub struct BlameLineView {
    pub line_no: u32,
    pub commit_id: Seq<char>,
    pub author_name: Seq<char>,
    pub author_email: Seq<char>,
    pub timestamp: i64,
    pub content: Seq<char>,
}

/// The view of a blame line.
pub open spec fn blame_view(line: BlameLine) -> BlameLineView {
    BlameLineView {
        line_no: line.line_no,
        commit_id: line.commit_id@,
        author_name: line.author_name@,
        author_email: line.author_email@,
        timestamp: line.timestamp,
        content: line.content@,
    }
}

/// The views of a sequence of blame lines, in order.
pub open spec fn blame_views(lines: Seq<BlameLine>) -> Seq<BlameLineView> {
    lines.map_values(|l: BlameLine| blame_view(l))
}

/// The text of the line with the number `line_no` of a file, or the empty
/// text where the file has no such line.
pub open spec fn line_text(file_lines: Seq<String>, line_no: int) -> Seq<char> {
    if 1 <= line_no <= file_lines.len() {
        file_lines[line_no - 1]@
    } else {
        Seq::empty()
    }
}

/// The line at `offset` of a run, blamed on the run's commit.
pub open spec fn blamed_line(hunk: BlameHunk, file_lines: Seq<String>, offset: int) -> BlameLineView {
    BlameLineView {
        line_no: (hunk.start_line + offset) as u32,
        commit_id: hunk.commit_id@,
        author_name: hunk.author_name@,
        author_email: hunk.author_email@,
        timestamp: hunk.timestamp,
        content: line_text(file_lines, hunk.start_line + offset),
    }
}

/// The lines of one run, in order.
pub open spec fn hunk_blame(hunk: BlameHunk, file_lines: Seq<String>) -> Seq<BlameLineView> {
    Seq::new(hunk.line_count as nat, |offset: int| blamed_line(hunk, file_lines, offset))
}

/// The lines of each run, in order.
pub open spec fn blame_by_hunk(hunks: Seq<BlameHunk>, file_lines: Seq<String>) -> Seq<
    Seq<BlameLineView>,
> {
    hunks.map_values(|h: BlameHunk| hunk_blame(h, file_lines))
}

/// Every run has line numbers that start at 1 and fit in 32 bits.
pub open spec fn all_in_range(hunks: Seq<BlameHunk>) -> bool {
    forall|i: int| 0 <= i < hunks.len() ==> (#[trigger] hunks[i]).in_range()
}

/// Whether every run has line numbers that start at 1 and fit in 32 bits.
pub fn hunks_in_range(hunks: &[BlameHunk]) -> (ok: bool)
    ensures
        ok == all_in_range(hunks@),
{
    let mut index: usize = 0;
    while index < hunks.len()
        invariant
            index <= hunks.len(),
            forall|i: int| 0 <= i < index ==> (#[trigger] hunks@[i]).in_range(),
        decreases hunks.len() - index,
    {
        if !hunks[index].is_in_range() {
            return false;
        }
        index = index + 1;
    }
    true
}

/// Lists the lines of a file with the commit that last changed each.
///
/// Each run gives one line for each of its line numbers, with the run's
/// commit, author and time, and with the text of that line of the file; a
/// line that the file does not have has empty text. The runs follow each
/// other in the engine's order.
pub fn blame_lines(hunks: &[BlameHunk], file_lines: &[String]) -> (lines: Vec<BlameLine>)
    requires
        all_in_range(hunks@),
    ensures
        blame_views(lines@) == blame_by_hunk(hunks@, file_lines@).flatten(),
{
    let mut lines: Vec<BlameLine> = Vec::new();
    let mut index: usize = 0;
    assert(blame_by_hunk(hunks@.take(0), file_lines@) =~= Seq::<Seq<BlameLineView>>::empty());
    assert(blame_views(lines@) =~= Seq::<BlameLineView>::empty());
    while index < hunks.len()
        invariant
            index <= hunks.len(),
            all_in_range(hunks@),
            blame_views(lines@) == blame_by_hunk(hunks@.take(index as int), file_lines@).flatten(),
        decreases hunks.len() - index,
    {
        let hunk = &hunks[index];
        assert(hunk.in_range());
        let ghost before = blame_views(lines@);
        let mut offset: usize = 0;
        while offset < hunk.line_count
            invariant
                offset <= hunk.line_count,
                hunk.in_range(),
                blame_views(lines@) == before + hunk_blame(*hunk, file_lines@).take(offset as int),
            decreases hunk.line_count - offset,
        {
            let number = hunk.start_line + offset;
            let content = if number <= file_lines.len() {
                file_lines[number - 1].clone()
            } else {
                String::new()
            };
            let line = BlameLine {
                line_no: number as u32,
                commit_id: hunk.commit_id.clone(),
                author_name: hunk.author_name.clone(),
                author_email: hunk.author_email.clone(),
                timestamp: hunk.timestamp,
                content,
            };
            assert(blame_view(line) == blamed_line(*hunk, file_lines@, offset as int));
            let ghost so_far = blame_views(lines@);
            let ghost added = blame_view(line);
            lines.push(line);
            proof {
                let all = hunk_blame(*hunk, file_lines@);
                assert(blame_views(lines@) =~= so_far.push(added));
                assert(all.take(offset + 1) =~= all.take(offset as int).push(added));
                assert(blame_views(lines@) =~= before + all.take(offset + 1));
            }
            offset = offset + 1;
        }
        proof {
            let all = hunk_blame(*hunk, file_lines@);
            assert(all.take(hunk.line_count as int) =~= all);
            let so_far = blame_by_hunk(hunks@.take(index as int), file_lines@);
            assert(blame_by_hunk(hunks@.take(index + 1), file_lines@) =~= so_far.push(all));
            so_far.lemma_flatten_push(all);
        }
        index = index + 1;
    }
    assert(hunks@.take(hunks.len() as int) =~= hunks@);
    lines
}

} // verus!
