//! Patch synthesis: unified-diff text for one hunk, or for chosen lines of
//! one hunk, in forward or reverse direction.

use vstd::prelude::*;
use crate::diff::{line_views, DiffHunk, DiffHunkView, DiffLine, DiffLineType, DiffLineView};
use crate::text::{append_decimal, append_terminated, decimal, newline_terminated};

verus! {

/// The prefix of a line of a patch.
#[derive(Debug, Clone, Copy, PartialEq, Eq, Structural)]
pub enum PatchMarker {
    /// A space: the line is in both sides.
    Keep,
    /// A plus sign: the patch adds the line.
    Add,
    /// A minus sign: the patch removes the line.
    Remove,
}

impl PatchMarker {
    /// The character that starts a patch line with this marker.
    pub open spec fn symbol(self) -> char {
        match self {
            PatchMarker::Keep => ' ',
            PatchMarker::Add => '+',
            PatchMarker::Remove => '-',
        }
    }
}

/// One line of a patch: its marker and the text behind it.
pub struct PatchLine {
    pub marker: PatchMarker,
    pub content: Seq<char>,
}

/// The marker under which a hunk line enters a patch, or `None` where it does
/// not enter it at all.
///
/// Context stays context. A header line is left out. An addition or deletion
/// that is not selected becomes context. A selected addition is added, and a
/// selected deletion removed; in reverse direction the two trade places.
pub open spec fn line_marker(origin: DiffLineType, reverse: bool, selected: bool) -> Option<
    PatchMarker,
> {
    match origin {
        DiffLineType::Context => Some(PatchMarker::Keep),
        DiffLineType::Header => None,
        DiffLineType::Addition => Some(
            if !selected {
                PatchMarker::Keep
            } else if reverse {
                PatchMarker::Remove
            } else {
                PatchMarker::Add
            },
        ),
        DiffLineType::Deletion => Some(
            if !selected {
                PatchMarker::Keep
            } else if reverse {
                PatchMarker::Add
            } else {
                PatchMarker::Remove
            },
        ),
    }
}

/// The lines of the patch made of `lines`, where `selected` holds the indices
/// of the chosen lines.
pub open spec fn patch_lines(lines: Seq<DiffLineView>, selected: Set<int>, reverse: bool) -> Seq<
    PatchLine,
>
    decreases lines.len(),
{
    if lines.len() == 0 {
        Seq::empty()
    } else {
        let last = lines.len() - 1;
        let before = patch_lines(lines.drop_last(), selected, reverse);
        match line_marker(lines[last].origin, reverse, selected.contains(last)) {
            Some(marker) => before.push(PatchLine { marker, content: lines[last].content }),
            None => before,
        }
    }
}

/// The predicate "the line is in the old side of the patch".
pub open spec fn in_patch_old_side() -> spec_fn(PatchLine) -> bool {
    |p: PatchLine| p.marker != PatchMarker::Add
}

/// The predicate "the line is in the new side of the patch".
pub open spec fn in_patch_new_side() -> spec_fn(PatchLine) -> bool {
    |p: PatchLine| p.marker != PatchMarker::Remove
}

/// How many patch lines are context or removed.
pub open spec fn patch_old_count(body: Seq<PatchLine>) -> nat {
    body.filter(in_patch_old_side()).len()
}

/// How many patch lines are context or added.
pub open spec fn patch_new_count(body: Seq<PatchLine>) -> nat {
    body.filter(in_patch_new_side()).len()
}

/// The text of one patch line: the marker, the content, and a line feed
/// unless the content ends with one.
pub open spec fn patch_line_text(line: PatchLine) -> Seq<char> {
    seq![line.marker.symbol()] + newline_terminated(line.content)
}

/// The text of the lines of a patch, one after the other.
pub open spec fn body_text(body: Seq<PatchLine>) -> Seq<char>
    decreases body.len(),
{
    if body.len() == 0 {
        Seq::empty()
    } else {
        body_text(body.drop_last()) + patch_line_text(body.last())
    }
}

/// The two lines that name the file.
pub open spec fn file_header_text(path: Seq<char>) -> Seq<char> {
    "--- a/"@ + path + "\n"@ + "+++ b/"@ + path + "\n"@
}

/// The line that opens a hunk.
pub open spec fn hunk_header_text(old_start: nat, old_count: nat, new_start: nat, new_count: nat) -> Seq<
    char,
> {
    "@@ -"@ + decimal(old_start) + ","@ + decimal(old_count) + " +"@ + decimal(new_start) + ","@
        + decimal(new_count) + " @@\n"@
}

/// A whole patch: the file header, the hunk header and the lines.
pub open spec fn patch_text(
    path: Seq<char>,
    old_start: nat,
    old_count: nat,
    new_start: nat,
    new_count: nat,
    body: Seq<PatchLine>,
) -> Seq<char> {
    file_header_text(path) + hunk_header_text(old_start, old_count, new_start, new_count)
        + body_text(body)
}

/// The patch of a whole hunk. Its header holds the hunk's own four numbers,
/// the old and the new pair trading places in reverse direction.
pub open spec fn hunk_patch_text(path: Seq<char>, hunk: DiffHunkView, reverse: bool) -> Seq<char> {
    let body = patch_lines(hunk.lines, Set::full(), reverse);
    if reverse {
        patch_text(
            path,
            hunk.new_start as nat,
            hunk.new_lines as nat,
            hunk.old_start as nat,
            hunk.old_lines as nat,
            body,
        )
    } else {
        patch_text(
            path,
            hunk.old_start as nat,
            hunk.old_lines as nat,
            hunk.new_start as nat,
            hunk.new_lines as nat,
            body,
        )
    }
}

/// The set of the indices that `selected` lists.
pub open spec fn selected_set(selected: Seq<usize>) -> Set<int> {
    Set::new(|i: int| exists|k: int| 0 <= k < selected.len() && selected[k] == i)
}

/// The patch of the chosen lines of a hunk. Its header holds the hunk's two
/// start lines, trading places in reverse direction, and the numbers of the
/// lines of the patch itself: context and removed, then context and added.
pub open spec fn line_patch_text(
    path: Seq<char>,
    hunk: DiffHunkView,
    selected: Seq<usize>,
    reverse: bool,
) -> Seq<char> {
    let body = patch_lines(hunk.lines, selected_set(selected), reverse);
    if reverse {
        patch_text(
            path,
            hunk.new_start as nat,
            patch_old_count(body),
            hunk.old_start as nat,
            patch_new_count(body),
            body,
        )
    } else {
        patch_text(
            path,
            hunk.old_start as nat,
            patch_old_count(body),
            hunk.new_start as nat,
            patch_new_count(body),
            body,
        )
    }
}

/// The marker under which a hunk line enters a patch, by the table of line
/// type, direction and selection.
pub fn marker_for(origin: DiffLineType, reverse: bool, selected: bool) -> (marker: Option<
    PatchMarker,
>)
    ensures
        marker == line_marker(origin, reverse, selected),
{
    match (origin, reverse, selected) {
        (DiffLineType::Context, _, _) => Some(PatchMarker::Keep),
        (DiffLineType::Addition, false, true) => Some(PatchMarker::Add),
        (DiffLineType::Deletion, true, true) => Some(PatchMarker::Add),
        (DiffLineType::Addition, false, false) => Some(PatchMarker::Keep),
        (DiffLineType::Deletion, true, false) => Some(PatchMarker::Keep),
        (DiffLineType::Deletion, false, true) => Some(PatchMarker::Remove),
        (DiffLineType::Addition, true, true) => Some(PatchMarker::Remove),
        (DiffLineType::Deletion, false, false) => Some(PatchMarker::Keep),
        (DiffLineType::Addition, true, false) => Some(PatchMarker::Keep),
        (DiffLineType::Header, _, _) => None,
    }
}

/// Whether `selected` lists `index`.
pub fn is_selected(selected: &[usize], index: usize) -> (found: bool)
    ensures
        found == selected_set(selected@).contains(index as int),
{
    let mut k: usize = 0;
    while k < selected.len()
        invariant
            k <= selected.len(),
            forall|j: int| 0 <= j < k ==> selected@[j] != index,
        decreases selected.len() - k,
    {
        if selected[k] == index {
            return true;
        }
        k = k + 1;
    }
    false
}

/// Appends one patch line to `text`.
fn append_patch_line(text: &mut String, marker: PatchMarker, content: &str)
    ensures
        final(text)@ == old(text)@ + patch_line_text(PatchLine { marker, content: content@ }),
{
    let ghost before = text@;
    proof {
        reveal_strlit(" ");
        reveal_strlit("+");
        reveal_strlit("-");
    }
    let symbol = match marker {
        PatchMarker::Keep => " ",
        PatchMarker::Add => "+",
        PatchMarker::Remove => "-",
    };
    assert(symbol@ =~= seq![marker.symbol()]);
    text.append(symbol);
    append_terminated(text, content);
    assert(text@ =~= before + patch_line_text(PatchLine { marker, content: content@ }));
}

/// Appends the two lines that name the file to `text`.
fn append_file_header(text: &mut String, path: &str)
    ensures
        final(text)@ == old(text)@ + file_header_text(path@),
{
    let ghost before = text@;
    text.append("--- a/");
    text.append(path);
    text.append("\n");
    text.append("+++ b/");
    text.append(path);
    text.append("\n");
    assert(text@ =~= before + file_header_text(path@));
}

/// Appends the line that opens a hunk to `text`.
fn append_hunk_header(
    text: &mut String,
    old_start: u64,
    old_count: u64,
    new_start: u64,
    new_count: u64,
)
    ensures
        final(text)@ == old(text)@ + hunk_header_text(
            old_start as nat,
            old_count as nat,
            new_start as nat,
            new_count as nat,
        ),
{
    let ghost before = text@;
    text.append("@@ -");
    append_decimal(text, old_start);
    text.append(",");
    append_decimal(text, old_count);
    text.append(" +");
    append_decimal(text, new_start);
    text.append(",");
    append_decimal(text, new_count);
    text.append(" @@\n");
    assert(text@ =~= before + hunk_header_text(
        old_start as nat,
        old_count as nat,
        new_start as nat,
        new_count as nat,
    ));
}

/// Extending a prefix of the hunk's lines by its next line extends the patch
/// by at most that line, under its marker.
pub proof fn lemma_patch_lines_step(lines: Seq<DiffLine>, selected: Set<int>, reverse: bool, i: int)
    requires
        0 <= i < lines.len(),
    ensures
        patch_lines(line_views(lines.take(i + 1)), selected, reverse) == (match line_marker(
            lines[i].origin,
            reverse,
            selected.contains(i),
        ) {
            Some(marker) => patch_lines(line_views(lines.take(i)), selected, reverse).push(
                PatchLine { marker, content: lines[i].content@ },
            ),
            None => patch_lines(line_views(lines.take(i)), selected, reverse),
        }),
{
    let longer = line_views(lines.take(i + 1));
    assert(longer.drop_last() =~= line_views(lines.take(i)));
    assert(longer[longer.len() - 1] == lines[i]@);
}

/// The text of a patch body grows by the text of the line appended to it.
pub proof fn lemma_body_text_push(body: Seq<PatchLine>, line: PatchLine)
    ensures
        body_text(body.push(line)) == body_text(body) + patch_line_text(line),
{
    assert(body.push(line).drop_last() =~= body);
}

/// Appending one patch line extends the two counts of the patch by that line's
/// share.
pub proof fn lemma_patch_count_push(body: Seq<PatchLine>, line: PatchLine)
    ensures
        patch_old_count(body.push(line)) == patch_old_count(body) + (if line.marker
            != PatchMarker::Add {
            1nat
        } else {
            0nat
        }),
        patch_new_count(body.push(line)) == patch_new_count(body) + (if line.marker
            != PatchMarker::Remove {
            1nat
        } else {
            0nat
        }),
{
    Seq::lemma_filter_push(body, line, in_patch_old_side());
    Seq::lemma_filter_push(body, line, in_patch_new_side());
}

/// Synthesizes the patch of a whole hunk.
///
/// The patch names the file in two lines, opens the hunk with the hunk's own
/// four numbers and holds every line of the hunk but header lines: context
/// as context, additions added and deletions removed. In reverse direction
/// additions are removed, deletions added, and the old and new numbers of the
/// hunk header trade places. Every line ends with a line feed.
pub fn generate_hunk_patch(file_path: &str, hunk: &DiffHunk, reverse: bool) -> (patch: String)
    ensures
        patch@ == hunk_patch_text(file_path@, hunk@, reverse),
{
    let mut patch = String::new();
    append_file_header(&mut patch, file_path);
    if reverse {
        append_hunk_header(
            &mut patch,
            hunk.new_start as u64,
            hunk.new_lines as u64,
            hunk.old_start as u64,
            hunk.old_lines as u64,
        );
    } else {
        append_hunk_header(
            &mut patch,
            hunk.old_start as u64,
            hunk.old_lines as u64,
            hunk.new_start as u64,
            hunk.new_lines as u64,
        );
    }
    let ghost head = patch@;
    let ghost all = Set::<int>::full();
    let mut i: usize = 0;
    while i < hunk.lines.len()
        invariant
            i <= hunk.lines.len(),
            all == Set::<int>::full(),
            patch@ == head + body_text(
                patch_lines(line_views(hunk.lines@.take(i as int)), all, reverse),
            ),
        decreases hunk.lines.len() - i,
    {
        let ghost before = patch_lines(line_views(hunk.lines@.take(i as int)), all, reverse);
        let line = &hunk.lines[i];
        proof {
            lemma_patch_lines_step(hunk.lines@, all, reverse, i as int);
        }
        match marker_for(line.origin, reverse, true) {
            Some(marker) => {
                append_patch_line(&mut patch, marker, line.content.as_str());
                proof {
                    lemma_body_text_push(before, PatchLine { marker, content: line.content@ });
                    assert(patch@ =~= head + body_text(
                        before.push(PatchLine { marker, content: line.content@ }),
                    ));
                }
            },
            None => {},
        }
        i = i + 1;
    }
    assert(hunk.lines@.take(hunk.lines.len() as int) =~= hunk.lines@);
    assert(patch@ =~= hunk_patch_text(file_path@, hunk@, reverse));
    patch
}

/// Synthesizes the patch of the chosen lines of a hunk.
///
/// `selected_lines` lists indices into the hunk's lines. Context stays
/// context, header lines are left out, and an addition or deletion that is
/// not chosen becomes context. A chosen addition is added and a chosen
/// deletion removed; in reverse direction the two trade places. The hunk
/// header holds the hunk's start lines, which trade places in reverse
/// direction, and the counts of the patch's own lines: context and removed
/// lines first, context and added lines second.
pub fn generate_line_patch(
    file_path: &str,
    hunk: &DiffHunk,
    selected_lines: &[usize],
    reverse: bool,
) -> (patch: String)
    ensures
        patch@ == line_patch_text(file_path@, hunk@, selected_lines@, reverse),
{
    let ghost chosen = selected_set(selected_lines@);
    let mut body = String::new();
    let mut old_count: usize = 0;
    let mut new_count: usize = 0;
    let mut i: usize = 0;
    while i < hunk.lines.len()
        invariant
            i <= hunk.lines.len(),
            chosen == selected_set(selected_lines@),
            body@ == body_text(
                patch_lines(line_views(hunk.lines@.take(i as int)), chosen, reverse),
            ),
            old_count == patch_old_count(
                patch_lines(line_views(hunk.lines@.take(i as int)), chosen, reverse),
            ),
            new_count == patch_new_count(
                patch_lines(line_views(hunk.lines@.take(i as int)), chosen, reverse),
            ),
            old_count <= i,
            new_count <= i,
        decreases hunk.lines.len() - i,
    {
        let ghost before = patch_lines(line_views(hunk.lines@.take(i as int)), chosen, reverse);
        let line = &hunk.lines[i];
        let selected = is_selected(selected_lines, i);
        proof {
            lemma_patch_lines_step(hunk.lines@, chosen, reverse, i as int);
        }
        match marker_for(line.origin, reverse, selected) {
            Some(marker) => {
                append_patch_line(&mut body, marker, line.content.as_str());
                proof {
                    let added = PatchLine { marker, content: line.content@ };
                    lemma_body_text_push(before, added);
                    lemma_patch_count_push(before, added);
                }
                match marker {
                    PatchMarker::Keep => {
                        old_count = old_count + 1;
                        new_count = new_count + 1;
                    },
                    PatchMarker::Add => {
                        new_count = new_count + 1;
                    },
                    PatchMarker::Remove => {
                        old_count = old_count + 1;
                    },
                }
            },
            None => {},
        }
        i = i + 1;
    }
    assert(hunk.lines@.take(hunk.lines.len() as int) =~= hunk.lines@);
    let mut patch = String::new();
    append_file_header(&mut patch, file_path);
    if reverse {
        append_hunk_header(
            &mut patch,
            hunk.new_start as u64,
            old_count as u64,
            hunk.old_start as u64,
            new_count as u64,
        );
    } else {
        append_hunk_header(
            &mut patch,
            hunk.old_start as u64,
            old_count as u64,
            hunk.new_start as u64,
            new_count as u64,
        );
    }
    patch.append(body.as_str());
    assert(patch@ =~= line_patch_text(file_path@, hunk@, selected_lines@, reverse));
    patch
}

} // verus!
