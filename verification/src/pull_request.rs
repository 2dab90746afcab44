//! Pull requests on GitHub: what the service tells of them, and what it is
//! asked to do with them.

use vstd::prelude::*;
use crate::github::UserInfo;

verus! {

/// A label of an issue or pull request.
#[derive(Debug, Clone, PartialEq, Eq)]
pub struct LabelInfo {
    pub id: u64,
    pub name: String,
    pub color: String,
    pub description: Option<String>,
}

/// One end of a pull request: a branch and the commit at its tip.
#[derive(Debug, Clone, PartialEq, Eq)]
pub struct PrBranchRef {
    pub ref_name: String,
    pub sha: String,
}

/// A pull request as a list shows it.
#[derive(Debug, Clone, PartialEq, Eq)]
pub struct PullRequestSummary {
    pub number: u64,
    pub title: String,
    pub state: String,
    pub user: UserInfo,
    pub created_at: String,
    pub updated_at: String,
    pub draft: bool,
    pub labels: Vec<LabelInfo>,
    pub head: PrBranchRef,
    pub base: PrBranchRef,
}

/// A pull request with all that is known of it.
#[derive(Debug, Clone, PartialEq, Eq)]
pub struct PullRequestDetail {
    pub number: u64,
    pub title: String,
    pub state: String,
    pub user: UserInfo,
    pub created_at: String,
    pub updated_at: String,
    pub draft: bool,
    pub labels: Vec<LabelInfo>,
    pub head: PrBranchRef,
    pub base: PrBranchRef,
    pub body: Option<String>,
    pub merged_at: Option<String>,
    pub mergeable: Option<bool>,
    pub additions: u64,
    pub deletions: u64,
    pub changed_files: u64,
    pub commits: u64,
    pub assignees: Vec<UserInfo>,
    pub requested_reviewers: Vec<UserInfo>,
}

/// A comment in the conversation of a pull request.
#[derive(Debug, Clone, PartialEq, Eq)]
pub struct PrComment {
    pub id: u64,
    pub body: String,
    pub user: UserInfo,
    pub created_at: String,
    pub updated_at: String,
}

/// What a user said of a pull request as a whole.
#[derive(Debug, Clone, PartialEq, Eq)]
pub struct PrReview {
    pub id: u64,
    pub user: UserInfo,
    pub state: String,
    pub body: Option<String>,
    pub submitted_at: Option<String>,
}

/// A remark on a line of the diff of a pull request.
#[derive(Debug, Clone, PartialEq, Eq)]
pub struct ReviewComment {
    pub id: u64,
    pub body: String,
    pub user: UserInfo,
    pub path: String,
    pub line: Option<u64>,
    pub side: Option<String>,
    pub diff_hunk: String,
    pub created_at: String,
}

/// A file that a pull request changes.
#[derive(Debug, Clone, PartialEq, Eq)]
pub struct PrFile {
    pub filename: String,
    pub status: String,
    pub additions: u64,
    pub deletions: u64,
    pub patch: Option<String>,
}

/// What is needed to open a pull request.
#[derive(Debug, Clone, PartialEq, Eq)]
pub struct CreatePrRequest {
    pub title: String,
    pub body: Option<String>,
    pub head: String,
    pub base: String,
    pub draft: Option<bool>,
}

/// How to merge a pull request.
#[derive(Debug, Clone, PartialEq, Eq)]
pub struct MergePrRequest {
    pub merge_method: String,
    pub commit_title: Option<String>,
    pub commit_message: Option<String>,
}

/// A remark on a line, as part of what a user says of a pull request.
#[derive(Debug, Clone, PartialEq, Eq)]
pub struct ReviewCommentRequest {
    pub path: String,
    pub line: Option<u64>,
    pub side: Option<String>,
    pub body: String,
}

/// What a user says of a pull request as a whole, with remarks on lines.
#[derive(Debug, Clone, PartialEq, Eq)]
pub struct CreateReviewRequest {
    pub body: Option<String>,
    pub event: String,
    pub comments: Option<Vec<ReviewCommentRequest>>,
}

} // verus!
