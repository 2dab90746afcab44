//! Partial staging: from a diff and the user's choice of a hunk or of lines
//! to the patch to apply, and how to apply it.

use vstd::prelude::*;
use crate::diff::{DiffHunk, DiffHunkView, DiffOutput, DiffOutputView};
use crate::error::{DiffError, DiffErrorView};
use crate::patch::{generate_hunk_patch, generate_line_patch, hunk_patch_text, line_patch_text};
use crate::text::{decode_lossy, utf8_lossy};

verus! {

/// A patch together with the way to apply it.
#[derive(Debug, Clone, PartialEq, Eq)]
pub struct PatchRequest {
    /// The unified-diff text.
    pub patch: String,
    /// Apply to the staged index, not to the working tree.
    pub index_only: bool,
    /// Apply the patch backwards.
    pub reverse: bool,
}

/// The mathematical value of a [`PatchRequest`].
pub struct PatchRequestView {
    pub patch: Seq<char>,
    pub index_only: bool,
    pub reverse: bool,
}

impl View for PatchRequest {
    type V = PatchRequestView;

    open spec fn view(&self) -> PatchRequestView {
        PatchRequestView { patch: self.patch@, index_only: self.index_only, reverse: self.reverse }
    }
}

/// The view of a result of this module.
pub open spec fn request_view(result: Result<PatchRequest, DiffError>) -> Result<
    PatchRequestView,
    DiffErrorView,
> {
    match result {
        Ok(request) => Ok(request@),
        Err(error) => Err(error@),
    }
}

/// The hunk that a request speaks of: the hunk at `hunk_index` of the first
/// file of the diff. A diff without files has no diff for the file, and an
/// index that is not one of the file's hunks is out of range.
pub open spec fn chosen_hunk(diff: DiffOutputView, hunk_index: int) -> Result<
    DiffHunkView,
    DiffErrorView,
> {
    if diff.files.len() == 0 {
        Err(DiffErrorView::NoDiffFound)
    } else if !(0 <= hunk_index < diff.files[0].hunks.len()) {
        Err(DiffErrorView::HunkIndexOutOfRange)
    } else {
        Ok(diff.files[0].hunks[hunk_index])
    }
}

/// Every selected index is an index into the lines of the hunk.
pub open spec fn selection_in_range(hunk: DiffHunkView, selected: Seq<usize>) -> bool {
    forall|k: int| 0 <= k < selected.len() ==> (#[trigger] selected[k]) < hunk.lines.len()
}

/// The request for the whole of a chosen hunk.
pub open spec fn hunk_request(
    path: Seq<char>,
    diff: DiffOutputView,
    hunk_index: int,
    index_only: bool,
    reverse: bool,
) -> Result<PatchRequestView, DiffErrorView> {
    match chosen_hunk(diff, hunk_index) {
        Ok(hunk) => Ok(
            PatchRequestView { patch: hunk_patch_text(path, hunk, reverse), index_only, reverse },
        ),
        Err(error) => Err(error),
    }
}

/// The request for chosen lines of a chosen hunk. A selected index that is
/// not an index into the hunk's lines makes the selection invalid.
pub open spec fn lines_request(
    path: Seq<char>,
    diff: DiffOutputView,
    hunk_index: int,
    selected: Seq<usize>,
    index_only: bool,
    reverse: bool,
) -> Result<PatchRequestView, DiffErrorView> {
    match chosen_hunk(diff, hunk_index) {
        Ok(hunk) => if selection_in_range(hunk, selected) {
            Ok(
                PatchRequestView {
                    patch: line_patch_text(path, hunk, selected, reverse),
                    index_only,
                    reverse,
                },
            )
        } else {
            Err(DiffErrorView::InvalidLineSelection)
        },
        Err(error) => Err(error),
    }
}

/// Finds the hunk at `hunk_index` of the first file of `diff`.
///
/// Fails with `NoDiffFound` if the diff has no file, and with
/// `HunkIndexOutOfRange` if the file has no hunk with that index.
pub fn find_hunk<'a>(diff: &'a DiffOutput, hunk_index: usize) -> (found: Result<
    &'a DiffHunk,
    DiffError,
>)
    ensures
        match found {
            Ok(hunk) => chosen_hunk(diff@, hunk_index as int) == Ok::<DiffHunkView, DiffErrorView>(
                hunk@,
            ),
            Err(error) => chosen_hunk(diff@, hunk_index as int) == Err::<
                DiffHunkView,
                DiffErrorView,
            >(error@),
        },
{
    if diff.files.len() == 0 {
        return Err(DiffError::NoDiffFound);
    }
    let file = &diff.files[0];
    assert(diff@.files[0] == file@);
    if hunk_index >= file.hunks.len() {
        return Err(DiffError::HunkIndexOutOfRange);
    }
    let hunk = &file.hunks[hunk_index];
    assert(file@.hunks[hunk_index as int] == hunk@);
    Ok(hunk)
}

/// Whether every selected index is an index into the lines of `hunk`.
pub fn selection_is_valid(hunk: &DiffHunk, selected_lines: &[usize]) -> (valid: bool)
    ensures
        valid == selection_in_range(hunk@, selected_lines@),
{
    let count = hunk.lines.len();
    let mut k: usize = 0;
    while k < selected_lines.len()
        invariant
            k <= selected_lines.len(),
            count == hunk@.lines.len(),
            forall|j: int| 0 <= j < k ==> (#[trigger] selected_lines@[j]) < count,
        decreases selected_lines.len() - k,
    {
        if selected_lines[k] >= count {
            return false;
        }
        k = k + 1;
    }
    true
}

/// Makes the request for the whole of a chosen hunk.
fn request_hunk(
    path: &str,
    diff: &DiffOutput,
    hunk_index: usize,
    index_only: bool,
    reverse: bool,
) -> (request: Result<PatchRequest, DiffError>)
    ensures
        request_view(request) == hunk_request(path@, diff@, hunk_index as int, index_only, reverse),
{
    match find_hunk(diff, hunk_index) {
        Ok(hunk) => Ok(
            PatchRequest { patch: generate_hunk_patch(path, hunk, reverse), index_only, reverse },
        ),
        Err(error) => Err(error),
    }
}

/// Plans the staging of one hunk of the unstaged diff of a file: the forward
/// patch of the hunk, applied to the index.
///
/// Fails with `NoDiffFound` if the diff has no file and with
/// `HunkIndexOutOfRange` if it has no such hunk; never with an empty patch.
pub fn stage_hunk_request(path: &str, diff: &DiffOutput, hunk_index: usize) -> (request: Result<
    PatchRequest,
    DiffError,
>)
    ensures
        request_view(request) == hunk_request(path@, diff@, hunk_index as int, true, false),
{
    request_hunk(path, diff, hunk_index, true, false)
}

/// Plans the unstaging of one hunk of the staged diff of a file: the reverse
/// patch of the hunk, applied backwards to the index.
///
/// Fails with `NoDiffFound` if the diff has no file and with
/// `HunkIndexOutOfRange` if it has no such hunk.
pub fn unstage_hunk_request(path: &str, diff: &DiffOutput, hunk_index: usize) -> (request: Result<
    PatchRequest,
    DiffError,
>)
    ensures
        request_view(request) == hunk_request(path@, diff@, hunk_index as int, true, true),
{
    request_hunk(path, diff, hunk_index, true, true)
}

/// Plans the discarding of one hunk of the unstaged diff of a file: the
/// reverse patch of the hunk, applied backwards to the working tree.
///
/// Fails with `NoDiffFound` if the diff has no file and with
/// `HunkIndexOutOfRange` if it has no such hunk.
pub fn discard_hunk_request(path: &str, diff: &DiffOutput, hunk_index: usize) -> (request: Result<
    PatchRequest,
    DiffError,
>)
    ensures
        request_view(request) == hunk_request(path@, diff@, hunk_index as int, false, true),
{
    request_hunk(path, diff, hunk_index, false, true)
}

/// Plans the staging of chosen lines of one hunk of the unstaged diff of a
/// file: the forward patch of the chosen lines, applied to the index.
///
/// Fails with `NoDiffFound` if the diff has no file, with
/// `HunkIndexOutOfRange` if it has no such hunk, and with
/// `InvalidLineSelection` if a chosen index is not an index into the hunk's
/// lines. An empty choice gives a patch that changes nothing.
pub fn stage_lines_request(
    path: &str,
    diff: &DiffOutput,
    hunk_index: usize,
    line_indices: &[usize],
) -> (request: Result<PatchRequest, DiffError>)
    ensures
        request_view(request) == lines_request(
            path@,
            diff@,
            hunk_index as int,
            line_indices@,
            true,
            false,
        ),
{
    match find_hunk(diff, hunk_index) {
        Ok(hunk) => {
            if selection_is_valid(hunk, line_indices) {
                Ok(
                    PatchRequest {
                        patch: generate_line_patch(path, hunk, line_indices, false),
                        index_only: true,
                        reverse: false,
                    },
                )
            } else {
                Err(DiffError::InvalidLineSelection)
            }
        },
        Err(error) => Err(error),
    }
}

/// A request never fails but for a diff without files, a hunk index that the
/// diff does not have or a selected line that the hunk does not have; and on
/// success its patch is never empty.
pub proof fn request_fails_only_on_what_is_missing(
    path: Seq<char>,
    diff: DiffOutputView,
    hunk_index: int,
    selected: Seq<usize>,
    index_only: bool,
    reverse: bool,
)
    ensures
        hunk_request(path, diff, hunk_index, index_only, reverse) is Ok <==> diff.files.len() > 0
            && 0 <= hunk_index < diff.files[0].hunks.len(),
        lines_request(path, diff, hunk_index, selected, index_only, reverse) is Ok
            <==> diff.files.len() > 0 && 0 <= hunk_index < diff.files[0].hunks.len()
            && selection_in_range(diff.files[0].hunks[hunk_index], selected),
        diff.files.len() > 0 && !(0 <= hunk_index < diff.files[0].hunks.len()) ==> {
            &&& hunk_request(path, diff, hunk_index, index_only, reverse) == Err::<
                PatchRequestView,
                DiffErrorView,
            >(DiffErrorView::HunkIndexOutOfRange)
            &&& lines_request(path, diff, hunk_index, selected, index_only, reverse) == Err::<
                PatchRequestView,
                DiffErrorView,
            >(DiffErrorView::HunkIndexOutOfRange)
        },
        hunk_request(path, diff, hunk_index, index_only, reverse) matches Ok(request)
            ==> request.patch.len() > 0,
        lines_request(path, diff, hunk_index, selected, index_only, reverse) matches Ok(request)
            ==> request.patch.len() > 0,
{
    reveal_strlit("--- a/");
}

/// What the end of the apply step means: nothing to report if it succeeded,
/// and else `ApplyFailed` with what the step wrote to its error stream,
/// decoded leniently and otherwise unchanged.
pub fn apply_outcome(success: bool, diagnostic: &[u8]) -> (outcome: Result<(), DiffError>)
    ensures
        success ==> outcome is Ok,
        !success ==> (outcome matches Err(error) && error@ == DiffErrorView::ApplyFailed(
            utf8_lossy(diagnostic@),
        )),
{
    if success {
        Ok(())
    } else {
        Err(DiffError::ApplyFailed(decode_lossy(diagnostic)))
    }
}

} // verus!
