//! Pull request domain types.

use vstd::prelude::*;
use crate::text::{chars_eq_str, chars_of, concat_str_chars, lemma_trim_plain, trim, trim_chars};

verus! {

/// Pull request lifecycle: open, closed, or merged.
#[derive(Debug, Clone, Copy, PartialEq, Eq, Structural)]
pub enum PullState {
    Open,
    Closed,
    Merged,
}

impl PullState {
    /// The canonical spelling of the value.
    pub open spec fn spec_as_str(self) -> Seq<char> {
        match self {
            PullState::Open => "open"@,
            PullState::Closed => "closed"@,
            PullState::Merged => "merged"@,
        }
    }

    /// The value a trimmed spelling names, if any.
    pub open spec fn from_text(t: Seq<char>) -> Option<PullState> {
        if t == "open"@ {
            Some(PullState::Open)
        } else if t == "closed"@ {
            Some(PullState::Closed)
        } else if t == "merged"@ {
            Some(PullState::Merged)
        } else {
            None
        }
    }

    pub fn as_str(self) -> (r: &'static str)
        ensures
            r@ == self.spec_as_str(),
    {
        match self {
            PullState::Open => "open",
            PullState::Closed => "closed",
            PullState::Merged => "merged",
        }
    }

    /// Parses a spelling, ignoring surrounding whitespace.
    pub fn parse(s: &str) -> (r: Result<PullState, String>)
        ensures
            match r {
                Ok(x) => PullState::from_text(trim(s@)) == Some(x),
                Err(e) => PullState::from_text(trim(s@)) is None && e@ == "invalid pull state: "@ + trim(s@),
            },
    {
        let t = trim_chars(&chars_of(s));
        if chars_eq_str(&t, "open") {
            Ok(PullState::Open)
        } else if chars_eq_str(&t, "closed") {
            Ok(PullState::Closed)
        } else if chars_eq_str(&t, "merged") {
            Ok(PullState::Merged)
        } else {
            Err(concat_str_chars("invalid pull state: ", &t))
        }
    }
}

/// Each value is spelled by its own name (`open`, `closed`, `merged`), and each of those spellings reads
/// back as that value.
pub proof fn lemma_pull_state_spellings()
    ensures
        PullState::Open.spec_as_str() == "open"@,
        PullState::Closed.spec_as_str() == "closed"@,
        PullState::Merged.spec_as_str() == "merged"@,
        PullState::from_text("open"@) == Some(PullState::Open),
        PullState::from_text("closed"@) == Some(PullState::Closed),
        PullState::from_text("merged"@) == Some(PullState::Merged),
{
    reveal_strlit("open");
    reveal_strlit("closed");
    reveal_strlit("merged");
    lemma_trim_plain(PullState::Open.spec_as_str());
    lemma_pull_state_round_trip(PullState::Open);
    lemma_trim_plain(PullState::Closed.spec_as_str());
    lemma_pull_state_round_trip(PullState::Closed);
    lemma_trim_plain(PullState::Merged.spec_as_str());
    lemma_pull_state_round_trip(PullState::Merged);
}

/// Parsing the canonical spelling of any value gives that value back.
pub proof fn lemma_pull_state_round_trip(x: PullState)
    ensures
        PullState::from_text(trim(x.spec_as_str())) == Some(x),
{
    reveal_strlit("open");
    reveal_strlit("closed");
    reveal_strlit("merged");
    lemma_trim_plain(x.spec_as_str());
}

/// How a pull request is merged.
#[derive(Debug, Clone, Copy, PartialEq, Eq, Structural)]
pub enum MergeMethod {
    Merge,
    Squash,
    Rebase,
}

impl MergeMethod {
    /// The canonical spelling of the value.
    pub open spec fn spec_as_str(self) -> Seq<char> {
        match self {
            MergeMethod::Merge => "merge"@,
            MergeMethod::Squash => "squash"@,
            MergeMethod::Rebase => "rebase"@,
        }
    }

    /// The value a trimmed spelling names, if any.
    pub open spec fn from_text(t: Seq<char>) -> Option<MergeMethod> {
        if t == "merge"@ {
            Some(MergeMethod::Merge)
        } else if t == "squash"@ {
            Some(MergeMethod::Squash)
        } else if t == "rebase"@ {
            Some(MergeMethod::Rebase)
        } else {
            None
        }
    }

    pub fn as_str(self) -> (r: &'static str)
        ensures
            r@ == self.spec_as_str(),
    {
        match self {
            MergeMethod::Merge => "merge",
            MergeMethod::Squash => "squash",
            MergeMethod::Rebase => "rebase",
        }
    }

    /// Parses a spelling, ignoring surrounding whitespace.
    pub fn parse(s: &str) -> (r: Result<MergeMethod, String>)
        ensures
            match r {
                Ok(x) => MergeMethod::from_text(trim(s@)) == Some(x),
                Err(e) => MergeMethod::from_text(trim(s@)) is None && e@ == "invalid merge method: "@ + trim(s@),
            },
    {
        let t = trim_chars(&chars_of(s));
        if chars_eq_str(&t, "merge") {
            Ok(MergeMethod::Merge)
        } else if chars_eq_str(&t, "squash") {
            Ok(MergeMethod::Squash)
        } else if chars_eq_str(&t, "rebase") {
            Ok(MergeMethod::Rebase)
        } else {
            Err(concat_str_chars("invalid merge method: ", &t))
        }
    }
}

/// Each value is spelled by its own name (`merge`, `squash`, `rebase`), and each of those spellings reads
/// back as that value.
pub proof fn lemma_merge_method_spellings()
    ensures
        MergeMethod::Merge.spec_as_str() == "merge"@,
        MergeMethod::Squash.spec_as_str() == "squash"@,
        MergeMethod::Rebase.spec_as_str() == "rebase"@,
        MergeMethod::from_text("merge"@) == Some(MergeMethod::Merge),
        MergeMethod::from_text("squash"@) == Some(MergeMethod::Squash),
        MergeMethod::from_text("rebase"@) == Some(MergeMethod::Rebase),
{
    reveal_strlit("merge");
    reveal_strlit("squash");
    reveal_strlit("rebase");
    lemma_trim_plain(MergeMethod::Merge.spec_as_str());
    lemma_merge_method_round_trip(MergeMethod::Merge);
    lemma_trim_plain(MergeMethod::Squash.spec_as_str());
    lemma_merge_method_round_trip(MergeMethod::Squash);
    lemma_trim_plain(MergeMethod::Rebase.spec_as_str());
    lemma_merge_method_round_trip(MergeMethod::Rebase);
}

/// Parsing the canonical spelling of any value gives that value back.
pub proof fn lemma_merge_method_round_trip(x: MergeMethod)
    ensures
        MergeMethod::from_text(trim(x.spec_as_str())) == Some(x),
{
    reveal_strlit("merge");
    reveal_strlit("squash");
    reveal_strlit("rebase");
    lemma_trim_plain(x.spec_as_str());
}

/// State of a submitted pull request review.
#[derive(Debug, Clone, Copy, PartialEq, Eq, Structural)]
pub enum PullReviewState {
    Approved,
    ChangesRequested,
    Commented,
    Dismissed,
}

impl PullReviewState {
    /// The canonical spelling of the value.
    pub open spec fn spec_as_str(self) -> Seq<char> {
        match self {
            PullReviewState::Approved => "approved"@,
            PullReviewState::ChangesRequested => "changes_requested"@,
            PullReviewState::Commented => "commented"@,
            PullReviewState::Dismissed => "dismissed"@,
        }
    }

    /// The value a trimmed spelling names, if any.
    pub open spec fn from_text(t: Seq<char>) -> Option<PullReviewState> {
        if t == "approved"@ {
            Some(PullReviewState::Approved)
        } else if t == "changes_requested"@ {
            Some(PullReviewState::ChangesRequested)
        } else if t == "commented"@ {
            Some(PullReviewState::Commented)
        } else if t == "dismissed"@ {
            Some(PullReviewState::Dismissed)
        } else {
            None
        }
    }

    pub fn as_str(self) -> (r: &'static str)
        ensures
            r@ == self.spec_as_str(),
    {
        match self {
            PullReviewState::Approved => "approved",
            PullReviewState::ChangesRequested => "changes_requested",
            PullReviewState::Commented => "commented",
            PullReviewState::Dismissed => "dismissed",
        }
    }

    /// Parses a spelling, ignoring surrounding whitespace.
    pub fn parse(s: &str) -> (r: Result<PullReviewState, String>)
        ensures
            match r {
                Ok(x) => PullReviewState::from_text(trim(s@)) == Some(x),
                Err(e) => PullReviewState::from_text(trim(s@)) is None && e@ == "invalid review state: "@ + trim(s@),
            },
    {
        let t = trim_chars(&chars_of(s));
        if chars_eq_str(&t, "approved") {
            Ok(PullReviewState::Approved)
        } else if chars_eq_str(&t, "changes_requested") {
            Ok(PullReviewState::ChangesRequested)
        } else if chars_eq_str(&t, "commented") {
            Ok(PullReviewState::Commented)
        } else if chars_eq_str(&t, "dismissed") {
            Ok(PullReviewState::Dismissed)
        } else {
            Err(concat_str_chars("invalid review state: ", &t))
        }
    }
}

/// Each value is spelled by its own name (`approved`, `changes_requested`, `commented`, `dismissed`), and each of those spellings reads
/// back as that value.
pub proof fn lemma_pull_review_state_spellings()
    ensures
        PullReviewState::Approved.spec_as_str() == "approved"@,
        PullReviewState::ChangesRequested.spec_as_str() == "changes_requested"@,
        PullReviewState::Commented.spec_as_str() == "commented"@,
        PullReviewState::Dismissed.spec_as_str() == "dismissed"@,
        PullReviewState::from_text("approved"@) == Some(PullReviewState::Approved),
        PullReviewState::from_text("changes_requested"@) == Some(PullReviewState::ChangesRequested),
        PullReviewState::from_text("commented"@) == Some(PullReviewState::Commented),
        PullReviewState::from_text("dismissed"@) == Some(PullReviewState::Dismissed),
{
    reveal_strlit("approved");
    reveal_strlit("changes_requested");
    reveal_strlit("commented");
    reveal_strlit("dismissed");
    lemma_trim_plain(PullReviewState::Approved.spec_as_str());
    lemma_pull_review_state_round_trip(PullReviewState::Approved);
    lemma_trim_plain(PullReviewState::ChangesRequested.spec_as_str());
    lemma_pull_review_state_round_trip(PullReviewState::ChangesRequested);
    lemma_trim_plain(PullReviewState::Commented.spec_as_str());
    lemma_pull_review_state_round_trip(PullReviewState::Commented);
    lemma_trim_plain(PullReviewState::Dismissed.spec_as_str());
    lemma_pull_review_state_round_trip(PullReviewState::Dismissed);
}

/// Parsing the canonical spelling of any value gives that value back.
pub proof fn lemma_pull_review_state_round_trip(x: PullReviewState)
    ensures
        PullReviewState::from_text(trim(x.spec_as_str())) == Some(x),
{
    reveal_strlit("approved");
    reveal_strlit("changes_requested");
    reveal_strlit("commented");
    reveal_strlit("dismissed");
    lemma_trim_plain(x.spec_as_str());
}

#[derive(Debug, Clone)]
pub struct PullPublic {
    pub id: String,
    pub repo_id: String,
    pub number: i64,
    pub title: String,
    pub body: String,
    pub state: PullState,
    pub draft: bool,
    pub author_id: String,
    pub author_username: String,
    pub base_ref: String,
    pub base_sha: String,
    pub head_repo_id: String,
    pub head_owner: String,
    pub head_name: String,
    pub head_ref: String,
    pub head_sha: String,
    pub merged_at: Option<String>,
    pub merged_by: Option<String>,
    pub merge_commit_sha: Option<String>,
    pub merge_method: Option<MergeMethod>,
    pub closed_at: Option<String>,
    pub closed_by: Option<String>,
    pub created_at: String,
    pub updated_at: String,
}

#[derive(Debug, Clone)]
pub struct CreatePullRequest {
    pub owner: String,
    pub name: String,
    pub title: String,
    pub body: Option<String>,
    pub base_ref: String,
    pub head_ref: String,
    /// Optional fork head owner (defaults to base owner / same-repo).
    pub head_owner: Option<String>,
    pub head_name: Option<String>,
    pub draft: Option<bool>,
}

#[derive(Debug, Clone)]
pub struct PullRefRequest {
    pub owner: String,
    pub name: String,
    pub number: i64,
}

#[derive(Debug, Clone)]
pub struct PullListRequest {
    pub owner: String,
    pub name: String,
    /// `open` (default) | `closed` | `merged` | `all`
    pub state: Option<String>,
    pub author: Option<String>,
    pub label: Option<String>,
    pub assignee: Option<String>,
    /// `approved` | `changes_requested` | `review_required` | …
    pub review_state: Option<String>,
    pub offset: Option<u32>,
    pub limit: Option<u32>,
}

#[derive(Debug, Clone)]
pub struct PullListResponse {
    pub pulls: Vec<PullPublic>,
    pub total: i64,
    pub offset: u32,
    pub limit: u32,
}

#[derive(Debug, Clone)]
pub struct UpdatePullRequest {
    pub owner: String,
    pub name: String,
    pub number: i64,
    pub title: Option<String>,
    pub body: Option<String>,
    pub base_ref: Option<String>,
    pub draft: Option<bool>,
}

#[derive(Debug, Clone)]
pub struct MergePullRequest {
    pub owner: String,
    pub name: String,
    pub number: i64,
    pub method: MergeMethod,
    pub commit_title: Option<String>,
    pub commit_message: Option<String>,
    pub delete_branch: Option<bool>,
}

#[derive(Debug, Clone)]
pub struct MergePullResponse {
    pub pull: PullPublic,
    pub merge_commit_sha: String,
}

#[derive(Debug, Clone)]
pub struct RepoMergeSettings {
    pub allow_merge_commit: bool,
    pub allow_squash_merge: bool,
    pub allow_rebase_merge: bool,
}

#[derive(Debug, Clone)]
pub struct UpdateRepoMergeSettingsRequest {
    pub owner: String,
    pub name: String,
    pub allow_merge_commit: Option<bool>,
    pub allow_squash_merge: Option<bool>,
    pub allow_rebase_merge: Option<bool>,
}

#[derive(Debug, Clone)]
pub struct PullCommentPublic {
    pub id: String,
    pub pull_id: String,
    pub author_id: String,
    pub author_username: String,
    pub body: String,
    pub path: Option<String>,
    pub side: Option<String>,
    pub line: Option<i64>,
    pub start_line: Option<i64>,
    pub commit_sha: Option<String>,
    pub outdated: bool,
    pub resolved: bool,
    pub created_at: String,
    pub updated_at: String,
}

#[derive(Debug, Clone)]
pub struct CreatePullCommentRequest {
    pub owner: String,
    pub name: String,
    pub number: i64,
    pub body: String,
    pub path: Option<String>,
    pub side: Option<String>,
    pub line: Option<i64>,
    pub start_line: Option<i64>,
    pub commit_sha: Option<String>,
}

#[derive(Debug, Clone)]
pub struct PullCommentsListResponse {
    pub comments: Vec<PullCommentPublic>,
}

#[derive(Debug, Clone)]
pub struct ResolvePullCommentRequest {
    pub owner: String,
    pub name: String,
    pub number: i64,
    pub comment_id: String,
    pub resolved: bool,
}

#[derive(Debug, Clone)]
pub struct PullReviewPublic {
    pub id: String,
    pub pull_id: String,
    pub author_id: String,
    pub author_username: String,
    pub state: PullReviewState,
    pub body: String,
    pub commit_sha: Option<String>,
    pub submitted_at: String,
    pub dismissed_at: Option<String>,
    pub dismiss_reason: Option<String>,
}

#[derive(Debug, Clone)]
pub struct SubmitPullReviewRequest {
    pub owner: String,
    pub name: String,
    pub number: i64,
    /// `approved` | `changes_requested` | `commented`
    pub state: String,
    pub body: Option<String>,
}

#[derive(Debug, Clone)]
pub struct DismissPullReviewRequest {
    pub owner: String,
    pub name: String,
    pub number: i64,
    pub review_id: String,
    pub reason: Option<String>,
}

#[derive(Debug, Clone)]
pub struct PullReviewsListResponse {
    pub reviews: Vec<PullReviewPublic>,
}

#[derive(Debug, Clone)]
pub struct PullReviewRequestMutate {
    pub owner: String,
    pub name: String,
    pub number: i64,
    pub username: String,
}

#[derive(Debug, Clone)]
pub struct PullReviewRequestsListResponse {
    pub usernames: Vec<String>,
}

#[derive(Debug, Clone)]
pub struct PullFilesResponse {
    pub files: Vec<PullDiffFile>,
    pub empty: bool,
}

#[derive(Debug, Clone)]
pub struct PullDiffFile {
    pub path: String,
    pub status: String,
    pub patch: String,
}

#[derive(Debug, Clone)]
pub struct PullCommitsResponse {
    pub commits: Vec<PullCommitSummary>,
}

#[derive(Debug, Clone)]
pub struct PullCommitSummary {
    pub sha: String,
    pub short_sha: String,
    pub subject: String,
    pub author_name: String,
    pub author_email: String,
    pub authored_at: String,
}

#[derive(Debug, Clone)]
pub struct ForkRepoRequest {
    pub owner: String,
    pub name: String,
    /// Destination owner (user username). Defaults to session user.
    pub into_owner: Option<String>,
    pub into_name: Option<String>,
}

} // verus!
