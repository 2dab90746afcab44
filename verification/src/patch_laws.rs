//! What holds of every patch that the synthesizer produces.

use vstd::prelude::*;
use crate::diff::{lemma_count_push, new_side_count, old_side_count, DiffHunkView, DiffLineView};
use crate::patch::{
    hunk_patch_text, in_patch_new_side, in_patch_old_side, lemma_patch_count_push, line_marker,
    line_patch_text, patch_line_text, patch_lines, patch_new_count, patch_old_count, selected_set,
    PatchLine, PatchMarker,
};
use crate::text::newline_terminated;

verus! {

/// Every line of `body` is context.
pub open spec fn only_context(body: Seq<PatchLine>) -> bool {
    forall|k: int| 0 <= k < body.len() ==> (#[trigger] body[k]).marker == PatchMarker::Keep
}

/// `selected` holds the index of every addition and of every deletion among
/// `lines`.
pub open spec fn selects_every_change(lines: Seq<DiffLineView>, selected: Set<int>) -> bool {
    forall|i: int|
        0 <= i < lines.len() && ((#[trigger] lines[i]).origin is Addition
            || lines[i].origin is Deletion) ==> selected.contains(i)
}

/// Among the indices of `lines`, `selected` holds exactly those of the
/// additions.
pub open spec fn selects_the_additions(lines: Seq<DiffLineView>, selected: Set<int>) -> bool {
    forall|i: int|
        0 <= i < lines.len() ==> (selected.contains(i) <==> (#[trigger] lines[i]).origin
            is Addition)
}

/// None of `lines` is a deletion.
pub open spec fn no_deletions(lines: Seq<DiffLineView>) -> bool {
    forall|i: int| 0 <= i < lines.len() ==> !((#[trigger] lines[i]).origin is Deletion)
}

/// The marker with addition and removal exchanged.
pub open spec fn flipped(marker: PatchMarker) -> PatchMarker {
    match marker {
        PatchMarker::Keep => PatchMarker::Keep,
        PatchMarker::Add => PatchMarker::Remove,
        PatchMarker::Remove => PatchMarker::Add,
    }
}

/// Every text that stands for a line of a patch ends with a line feed.
pub proof fn patch_line_ends_with_newline(line: PatchLine)
    ensures
        patch_line_text(line).len() >= 2,
        patch_line_text(line).first() == line.marker.symbol(),
        patch_line_text(line).last() == '\n',
{
    let tail = newline_terminated(line.content);
    assert(tail.len() >= 1 && tail.last() == '\n');
    let whole = patch_line_text(line);
    assert(whole.len() == 1 + tail.len());
    assert(whole[whole.len() - 1] == tail[tail.len() - 1]);
}

/// A patch has at most one line for each line of the hunk.
pub proof fn patch_is_no_longer_than_hunk(
    lines: Seq<DiffLineView>,
    selected: Set<int>,
    reverse: bool,
)
    ensures
        patch_lines(lines, selected, reverse).len() <= lines.len(),
    decreases lines.len(),
{
    if lines.len() > 0 {
        patch_is_no_longer_than_hunk(lines.drop_last(), selected, reverse);
    }
}

/// Two selections that agree on the additions and deletions of a hunk give
/// the same patch lines: whether a context line, a header line or an index
/// outside the hunk is selected changes nothing.
pub proof fn selection_matters_on_changes_only(
    lines: Seq<DiffLineView>,
    first: Set<int>,
    second: Set<int>,
    reverse: bool,
)
    requires
        forall|i: int|
            0 <= i < lines.len() && ((#[trigger] lines[i]).origin is Addition
                || lines[i].origin is Deletion) ==> (first.contains(i) <==> second.contains(i)),
    ensures
        patch_lines(lines, first, reverse) == patch_lines(lines, second, reverse),
    decreases lines.len(),
{
    if lines.len() > 0 {
        let shorter = lines.drop_last();
        assert forall|i: int|
            0 <= i < shorter.len() && ((#[trigger] shorter[i]).origin is Addition
                || shorter[i].origin is Deletion) implies (first.contains(i) <==> second.contains(
            i,
        )) by {
            assert(shorter[i] == lines[i]);
        }
        selection_matters_on_changes_only(shorter, first, second, reverse);
        let last = lines.len() - 1;
        assert(lines[last].origin is Addition || lines[last].origin is Deletion ==> (
        first.contains(last) <==> second.contains(last)));
    }
}

/// With an empty selection the patch changes nothing: all its lines are
/// context, so its two counts are equal, in either direction.
pub proof fn empty_selection_is_a_no_op(lines: Seq<DiffLineView>, reverse: bool)
    ensures
        only_context(patch_lines(lines, selected_set(Seq::<usize>::empty()), reverse)),
        patch_old_count(patch_lines(lines, selected_set(Seq::<usize>::empty()), reverse))
            == patch_new_count(
            patch_lines(lines, selected_set(Seq::<usize>::empty()), reverse),
        ),
    decreases lines.len(),
{
    let nothing = selected_set(Seq::<usize>::empty());
    if lines.len() == 0 {
        assert(patch_lines(lines, nothing, reverse) =~= Seq::<PatchLine>::empty());
    } else {
        let shorter = lines.drop_last();
        empty_selection_is_a_no_op(shorter, reverse);
        let before = patch_lines(shorter, nothing, reverse);
        let last = lines.len() - 1;
        assert(!nothing.contains(last));
        match line_marker(lines[last].origin, reverse, false) {
            Some(marker) => {
                assert(marker == PatchMarker::Keep);
                lemma_patch_count_push(
                    before,
                    PatchLine { marker, content: lines[last].content },
                );
            },
            None => {},
        }
    }
}

/// The counts of the patch of a whole hunk are the counts of the hunk's lines:
/// in forward direction the old count of the patch is the number of context
/// lines and deletions and its new count the number of context lines and
/// additions; in reverse direction the two trade places.
pub proof fn whole_hunk_patch_counts(lines: Seq<DiffLineView>, selected: Set<int>, reverse: bool)
    requires
        selects_every_change(lines, selected),
    ensures
        patch_old_count(patch_lines(lines, selected, reverse)) == (if reverse {
            new_side_count(lines)
        } else {
            old_side_count(lines)
        }),
        patch_new_count(patch_lines(lines, selected, reverse)) == (if reverse {
            old_side_count(lines)
        } else {
            new_side_count(lines)
        }),
    decreases lines.len(),
{
    if lines.len() == 0 {
        assert(patch_lines(lines, selected, reverse) =~= Seq::<PatchLine>::empty());
        assert(lines =~= Seq::<DiffLineView>::empty());
    } else {
        let shorter = lines.drop_last();
        let last = lines.len() - 1;
        assert forall|i: int|
            0 <= i < shorter.len() && ((#[trigger] shorter[i]).origin is Addition
                || shorter[i].origin is Deletion) implies selected.contains(i) by {
            assert(shorter[i] == lines[i]);
        }
        whole_hunk_patch_counts(shorter, selected, reverse);
        assert(lines =~= shorter.push(lines[last]));
        lemma_count_push(shorter, lines[last]);
        let before = patch_lines(shorter, selected, reverse);
        assert(lines[last].origin is Addition || lines[last].origin is Deletion
            ==> selected.contains(last));
        match line_marker(lines[last].origin, reverse, selected.contains(last)) {
            Some(marker) => {
                lemma_patch_count_push(
                    before,
                    PatchLine { marker, content: lines[last].content },
                );
            },
            None => {},
        }
    }
}

/// Selecting every addition and every deletion of a hunk whose counts agree
/// with its lines gives the patch of the whole hunk, in either direction.
pub proof fn selecting_every_change_gives_the_hunk_patch(
    path: Seq<char>,
    hunk: DiffHunkView,
    selected: Seq<usize>,
    reverse: bool,
)
    requires
        hunk.counts_agree(),
        selects_every_change(hunk.lines, selected_set(selected)),
    ensures
        line_patch_text(path, hunk, selected, reverse) == hunk_patch_text(path, hunk, reverse),
{
    selection_matters_on_changes_only(
        hunk.lines,
        selected_set(selected),
        Set::<int>::full(),
        reverse,
    );
    whole_hunk_patch_counts(hunk.lines, selected_set(selected), reverse);
}

/// In forward direction, selecting exactly the additions of a hunk that has
/// no deletions, and whose counts agree with its lines, gives a patch with the
/// header counts of the hunk itself, and indeed the patch of the whole hunk.
pub proof fn selecting_the_additions_keeps_the_hunk_counts(
    path: Seq<char>,
    hunk: DiffHunkView,
    selected: Seq<usize>,
)
    requires
        hunk.counts_agree(),
        no_deletions(hunk.lines),
        selects_the_additions(hunk.lines, selected_set(selected)),
    ensures
        patch_old_count(patch_lines(hunk.lines, selected_set(selected), false))
            == hunk.old_lines,
        patch_new_count(patch_lines(hunk.lines, selected_set(selected), false))
            == hunk.new_lines,
        line_patch_text(path, hunk, selected, false) == hunk_patch_text(path, hunk, false),
{
    assert(selects_every_change(hunk.lines, selected_set(selected)));
    whole_hunk_patch_counts(hunk.lines, selected_set(selected), false);
    selecting_every_change_gives_the_hunk_patch(path, hunk, selected, false);
}

/// The reverse patch of a selection has the lines of the forward patch, each
/// with addition and removal exchanged, so its two counts are those of the
/// forward patch exchanged.
pub proof fn reverse_patch_flips_the_forward_patch(lines: Seq<DiffLineView>, selected: Set<int>)
    ensures
        patch_lines(lines, selected, true).len() == patch_lines(lines, selected, false).len(),
        forall|k: int|
            #![trigger patch_lines(lines, selected, true)[k]]
            0 <= k < patch_lines(lines, selected, false).len() ==> {
                &&& patch_lines(lines, selected, true)[k].marker == flipped(
                    patch_lines(lines, selected, false)[k].marker,
                )
                &&& patch_lines(lines, selected, true)[k].content == patch_lines(
                    lines,
                    selected,
                    false,
                )[k].content
            },
        patch_old_count(patch_lines(lines, selected, true)) == patch_new_count(
            patch_lines(lines, selected, false),
        ),
        patch_new_count(patch_lines(lines, selected, true)) == patch_old_count(
            patch_lines(lines, selected, false),
        ),
    decreases lines.len(),
{
    if lines.len() == 0 {
        assert(patch_lines(lines, selected, true) =~= Seq::<PatchLine>::empty());
        assert(patch_lines(lines, selected, false) =~= Seq::<PatchLine>::empty());
    } else {
        let shorter = lines.drop_last();
        let last = lines.len() - 1;
        reverse_patch_flips_the_forward_patch(shorter, selected);
        let chosen = selected.contains(last);
        match line_marker(lines[last].origin, false, chosen) {
            Some(marker) => {
                assert(line_marker(lines[last].origin, true, chosen) == Some(flipped(marker)));
                lemma_patch_count_push(
                    patch_lines(shorter, selected, false),
                    PatchLine { marker, content: lines[last].content },
                );
                lemma_patch_count_push(
                    patch_lines(shorter, selected, true),
                    PatchLine { marker: flipped(marker), content: lines[last].content },
                );
            },
            None => {
                assert(line_marker(lines[last].origin, true, chosen) is None);
            },
        }
    }
}

/// The lines that a patch expects to find: its context and the lines that
/// it removes, in order.
pub open spec fn old_image(body: Seq<PatchLine>) -> Seq<Seq<char>> {
    body.filter(in_patch_old_side()).map_values(|p: PatchLine| newline_terminated(p.content))
}

/// The lines that a patch leaves behind: its context and the lines that it
/// adds, in order.
pub open spec fn new_image(body: Seq<PatchLine>) -> Seq<Seq<char>> {
    body.filter(in_patch_new_side()).map_values(|p: PatchLine| newline_terminated(p.content))
}

/// Appending a line to a patch appends its content to each image that the
/// line belongs to.
proof fn lemma_image_push(body: Seq<PatchLine>, line: PatchLine)
    ensures
        old_image(body.push(line)) == (if line.marker != PatchMarker::Add {
            old_image(body).push(newline_terminated(line.content))
        } else {
            old_image(body)
        }),
        new_image(body.push(line)) == (if line.marker != PatchMarker::Remove {
            new_image(body).push(newline_terminated(line.content))
        } else {
            new_image(body)
        }),
{
    Seq::lemma_filter_push(body, line, in_patch_old_side());
    Seq::lemma_filter_push(body, line, in_patch_new_side());
    if line.marker != PatchMarker::Add {
        assert(old_image(body.push(line)) =~= old_image(body).push(
            newline_terminated(line.content),
        ));
    }
    if line.marker != PatchMarker::Remove {
        assert(new_image(body.push(line)) =~= new_image(body).push(
            newline_terminated(line.content),
        ));
    }
}

/// The reverse patch of a selection undoes its forward patch: it expects to
/// find what the forward patch leaves behind, and leaves behind what the
/// forward patch expects to find.
pub proof fn reverse_patch_undoes_the_forward_patch(lines: Seq<DiffLineView>, selected: Set<int>)
    ensures
        old_image(patch_lines(lines, selected, true)) == new_image(
            patch_lines(lines, selected, false),
        ),
        new_image(patch_lines(lines, selected, true)) == old_image(
            patch_lines(lines, selected, false),
        ),
    decreases lines.len(),
{
    if lines.len() == 0 {
        assert(old_image(Seq::<PatchLine>::empty()) =~= new_image(Seq::<PatchLine>::empty()));
    } else {
        let shorter = lines.drop_last();
        let last = lines.len() - 1;
        reverse_patch_undoes_the_forward_patch(shorter, selected);
        let chosen = selected.contains(last);
        match line_marker(lines[last].origin, false, chosen) {
            Some(marker) => {
                assert(line_marker(lines[last].origin, true, chosen) == Some(flipped(marker)));
                lemma_image_push(
                    patch_lines(shorter, selected, false),
                    PatchLine { marker, content: lines[last].content },
                );
                lemma_image_push(
                    patch_lines(shorter, selected, true),
                    PatchLine { marker: flipped(marker), content: lines[last].content },
                );
            },
            None => {
                assert(line_marker(lines[last].origin, true, chosen) is None);
            },
        }
    }
}

/// The forward patch of a whole hunk expects to find the hunk's context lines
/// and deletions and leaves behind its context lines and additions: it
/// carries the old side of the hunk over into its new side.
pub proof fn whole_hunk_patch_carries_old_into_new(lines: Seq<DiffLineView>)
    ensures
        old_image(patch_lines(lines, Set::full(), false)) == lines.filter(
            crate::diff::old_side(),
        ).map_values(|l: DiffLineView| newline_terminated(l.content)),
        new_image(patch_lines(lines, Set::full(), false)) == lines.filter(
            crate::diff::new_side(),
        ).map_values(|l: DiffLineView| newline_terminated(l.content)),
    decreases lines.len(),
{
    let content = |l: DiffLineView| newline_terminated(l.content);
    if lines.len() == 0 {
        assert(old_image(Seq::<PatchLine>::empty()) =~= lines.filter(
            crate::diff::old_side(),
        ).map_values(content));
        assert(new_image(Seq::<PatchLine>::empty()) =~= lines.filter(
            crate::diff::new_side(),
        ).map_values(content));
    } else {
        let shorter = lines.drop_last();
        let line = lines.last();
        whole_hunk_patch_carries_old_into_new(shorter);
        assert(lines =~= shorter.push(line));
        Seq::lemma_filter_push(shorter, line, crate::diff::old_side());
        Seq::lemma_filter_push(shorter, line, crate::diff::new_side());
        let before = patch_lines(shorter, Set::full(), false);
        match line_marker(line.origin, false, true) {
            Some(marker) => {
                lemma_image_push(before, PatchLine { marker, content: line.content });
                if line.origin.on_old_side() {
                    assert(lines.filter(crate::diff::old_side()).map_values(content)
                        =~= shorter.filter(crate::diff::old_side()).map_values(content).push(
                        newline_terminated(line.content),
                    ));
                }
                if line.origin.on_new_side() {
                    assert(lines.filter(crate::diff::new_side()).map_values(content)
                        =~= shorter.filter(crate::diff::new_side()).map_values(content).push(
                        newline_terminated(line.content),
                    ));
                }
            },
            None => {},
        }
    }
}

} // verus!
