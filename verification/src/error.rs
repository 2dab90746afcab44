//! The ways in which a request on a diff can fail.

use vstd::prelude::*;

verus! {

/// A failure of the diff engine, as the engine tells it: its error code, its
/// error class and its message.
#[derive(Debug, Clone, PartialEq, Eq)]
pub struct EngineFailure {
    pub code: i32,
    pub class: i32,
    pub message: String,
}

/// The mathematical value of an [`EngineFailure`].
pub struct EngineFailureView {
    pub code: i32,
    pub class: i32,
    pub message: Seq<char>,
}

impl View for EngineFailure {
    type V = EngineFailureView;

    open spec fn view(&self) -> EngineFailureView {
        EngineFailureView { code: self.code, class: self.class, message: self.message@ }
    }
}

/// Why a diff could not be produced, or a patch not be made or applied.
#[derive(Debug, Clone, PartialEq, Eq)]
pub enum DiffError {
    /// The diff engine failed. The failure is the engine's own, unchanged.
    Engine(EngineFailure),
    /// The file has no diff in the requested comparison.
    NoDiffFound,
    /// The diff has no hunk with the requested index.
    HunkIndexOutOfRange,
    /// A selected line index is not an index into the hunk's lines.
    InvalidLineSelection,
    /// The apply step failed. The text is its diagnostic, unchanged.
    ApplyFailed(String),
}

/// The mathematical value of a [`DiffError`].
pub enum DiffErrorView {
    Engine(EngineFailureView),
    NoDiffFound,
    HunkIndexOutOfRange,
    InvalidLineSelection,
    ApplyFailed(Seq<char>),
}

impl View for DiffError {
    type V = DiffErrorView;

    open spec fn view(&self) -> DiffErrorView {
        match self {
            DiffError::Engine(failure) => DiffErrorView::Engine(failure@),
            DiffError::NoDiffFound => DiffErrorView::NoDiffFound,
            DiffError::HunkIndexOutOfRange => DiffErrorView::HunkIndexOutOfRange,
            DiffError::InvalidLineSelection => DiffErrorView::InvalidLineSelection,
            DiffError::ApplyFailed(message) => DiffErrorView::ApplyFailed(message@),
        }
    }
}

impl DiffErrorView {
    /// The text shown to the user for this error.
    pub open spec fn message(self) -> Seq<char> {
        match self {
            DiffErrorView::Engine(failure) => failure.message,
            DiffErrorView::NoDiffFound => "No diff found for file"@,
            DiffErrorView::HunkIndexOutOfRange => "Hunk index out of range"@,
            DiffErrorView::InvalidLineSelection => "Line index out of range"@,
            DiffErrorView::ApplyFailed(message) => message,
        }
    }
}

impl DiffError {
    /// The text shown to the user for this error. The message of the engine
    /// and the diagnostic of the apply step are passed on as they are.
    pub fn message(&self) -> (text: String)
        ensures
            text@ == self@.message(),
    {
        match self {
            DiffError::Engine(failure) => failure.message.clone(),
            DiffError::NoDiffFound => String::from_str("No diff found for file"),
            DiffError::HunkIndexOutOfRange => String::from_str("Hunk index out of range"),
            DiffError::InvalidLineSelection => String::from_str("Line index out of range"),
            DiffError::ApplyFailed(message) => message.clone(),
        }
    }
}

} // verus!
