//! Issue domain types: states, reactions, labels, links and request shapes.

use vstd::prelude::*;
use crate::text::{chars_eq_str, chars_of, concat_str_chars, lemma_trim_plain, trim, trim_chars};

verus! {

/// Issue lifecycle state: open or closed.
#[derive(Debug, Clone, Copy, PartialEq, Eq, Structural)]
pub enum IssueState {
    Open,
    Closed,
}

impl IssueState {
    /// The canonical spelling of the value.
    pub open spec fn spec_as_str(self) -> Seq<char> {
        match self {
            IssueState::Open => "open"@,
            IssueState::Closed => "closed"@,
        }
    }

    /// The value a trimmed spelling names, if any.
    pub open spec fn from_text(t: Seq<char>) -> Option<IssueState> {
        if t == "open"@ {
            Some(IssueState::Open)
        } else if t == "closed"@ {
            Some(IssueState::Closed)
        } else {
            None
        }
    }

    pub fn as_str(self) -> (r: &'static str)
        ensures
            r@ == self.spec_as_str(),
    {
        match self {
            IssueState::Open => "open",
            IssueState::Closed => "closed",
        }
    }

    /// Parses a spelling, ignoring surrounding whitespace.
    pub fn parse(s: &str) -> (r: Result<IssueState, String>)
        ensures
            match r {
                Ok(x) => IssueState::from_text(trim(s@)) == Some(x),
                Err(e) => IssueState::from_text(trim(s@)) is None && e@ == "invalid issue state: "@ + trim(s@),
            },
    {
        let t = trim_chars(&chars_of(s));
        if chars_eq_str(&t, "open") {
            Ok(IssueState::Open)
        } else if chars_eq_str(&t, "closed") {
            Ok(IssueState::Closed)
        } else {
            Err(concat_str_chars("invalid issue state: ", &t))
        }
    }
}

/// Each value is spelled by its own name (`open`, `closed`), and each of those spellings reads
/// back as that value.
pub proof fn lemma_issue_state_spellings()
    ensures
        IssueState::Open.spec_as_str() == "open"@,
        IssueState::Closed.spec_as_str() == "closed"@,
        IssueState::from_text("open"@) == Some(IssueState::Open),
        IssueState::from_text("closed"@) == Some(IssueState::Closed),
{
    reveal_strlit("open");
    reveal_strlit("closed");
    lemma_trim_plain(IssueState::Open.spec_as_str());
    lemma_issue_state_round_trip(IssueState::Open);
    lemma_trim_plain(IssueState::Closed.spec_as_str());
    lemma_issue_state_round_trip(IssueState::Closed);
}

/// Parsing the canonical spelling of any value gives that value back.
pub proof fn lemma_issue_state_round_trip(x: IssueState)
    ensures
        IssueState::from_text(trim(x.spec_as_str())) == Some(x),
{
    reveal_strlit("open");
    reveal_strlit("closed");
    lemma_trim_plain(x.spec_as_str());
}

/// The eight reaction contents an issue or comment can carry.
#[derive(Debug, Clone, Copy, PartialEq, Eq, Structural, Hash)]
pub enum ReactionContent {
    PlusOne,
    MinusOne,
    Laugh,
    Confused,
    Heart,
    Hooray,
    Rocket,
    Eyes,
}

impl ReactionContent {
    /// The canonical spelling of the value.
    pub open spec fn spec_as_str(self) -> Seq<char> {
        match self {
            ReactionContent::PlusOne => "+1"@,
            ReactionContent::MinusOne => "-1"@,
            ReactionContent::Laugh => "laugh"@,
            ReactionContent::Confused => "confused"@,
            ReactionContent::Heart => "heart"@,
            ReactionContent::Hooray => "hooray"@,
            ReactionContent::Rocket => "rocket"@,
            ReactionContent::Eyes => "eyes"@,
        }
    }

    /// The value a trimmed spelling names, if any.
    pub open spec fn from_text(t: Seq<char>) -> Option<ReactionContent> {
        if t == "+1"@ {
            Some(ReactionContent::PlusOne)
        } else if t == "-1"@ {
            Some(ReactionContent::MinusOne)
        } else if t == "laugh"@ {
            Some(ReactionContent::Laugh)
        } else if t == "confused"@ {
            Some(ReactionContent::Confused)
        } else if t == "heart"@ {
            Some(ReactionContent::Heart)
        } else if t == "hooray"@ {
            Some(ReactionContent::Hooray)
        } else if t == "rocket"@ {
            Some(ReactionContent::Rocket)
        } else if t == "eyes"@ {
            Some(ReactionContent::Eyes)
        } else {
            None
        }
    }

    pub fn as_str(self) -> (r: &'static str)
        ensures
            r@ == self.spec_as_str(),
    {
        match self {
            ReactionContent::PlusOne => "+1",
            ReactionContent::MinusOne => "-1",
            ReactionContent::Laugh => "laugh",
            ReactionContent::Confused => "confused",
            ReactionContent::Heart => "heart",
            ReactionContent::Hooray => "hooray",
            ReactionContent::Rocket => "rocket",
            ReactionContent::Eyes => "eyes",
        }
    }

    /// Parses a spelling, ignoring surrounding whitespace.
    pub fn parse(s: &str) -> (r: Result<ReactionContent, String>)
        ensures
            match r {
                Ok(x) => ReactionContent::from_text(trim(s@)) == Some(x),
                Err(e) => ReactionContent::from_text(trim(s@)) is None && e@ == "invalid reaction content: "@ + trim(s@),
            },
    {
        let t = trim_chars(&chars_of(s));
        if chars_eq_str(&t, "+1") {
            Ok(ReactionContent::PlusOne)
        } else if chars_eq_str(&t, "-1") {
            Ok(ReactionContent::MinusOne)
        } else if chars_eq_str(&t, "laugh") {
            Ok(ReactionContent::Laugh)
        } else if chars_eq_str(&t, "confused") {
            Ok(ReactionContent::Confused)
        } else if chars_eq_str(&t, "heart") {
            Ok(ReactionContent::Heart)
        } else if chars_eq_str(&t, "hooray") {
            Ok(ReactionContent::Hooray)
        } else if chars_eq_str(&t, "rocket") {
            Ok(ReactionContent::Rocket)
        } else if chars_eq_str(&t, "eyes") {
            Ok(ReactionContent::Eyes)
        } else {
            Err(concat_str_chars("invalid reaction content: ", &t))
        }
    }
}

/// Each value is spelled by its own name (`+1`, `-1`, `laugh`, `confused`, `heart`, `hooray`, `rocket`, `eyes`), and each of those spellings reads
/// back as that value.
pub proof fn lemma_reaction_content_spellings()
    ensures
        ReactionContent::PlusOne.spec_as_str() == "+1"@,
        ReactionContent::MinusOne.spec_as_str() == "-1"@,
        ReactionContent::Laugh.spec_as_str() == "laugh"@,
        ReactionContent::Confused.spec_as_str() == "confused"@,
        ReactionContent::Heart.spec_as_str() == "heart"@,
        ReactionContent::Hooray.spec_as_str() == "hooray"@,
        ReactionContent::Rocket.spec_as_str() == "rocket"@,
        ReactionContent::Eyes.spec_as_str() == "eyes"@,
        ReactionContent::from_text("+1"@) == Some(ReactionContent::PlusOne),
        ReactionContent::from_text("-1"@) == Some(ReactionContent::MinusOne),
        ReactionContent::from_text("laugh"@) == Some(ReactionContent::Laugh),
        ReactionContent::from_text("confused"@) == Some(ReactionContent::Confused),
        ReactionContent::from_text("heart"@) == Some(ReactionContent::Heart),
        ReactionContent::from_text("hooray"@) == Some(ReactionContent::Hooray),
        ReactionContent::from_text("rocket"@) == Some(ReactionContent::Rocket),
        ReactionContent::from_text("eyes"@) == Some(ReactionContent::Eyes),
{
    reveal_strlit("+1");
    reveal_strlit("-1");
    reveal_strlit("laugh");
    reveal_strlit("confused");
    reveal_strlit("heart");
    reveal_strlit("hooray");
    reveal_strlit("rocket");
    reveal_strlit("eyes");
    lemma_trim_plain(ReactionContent::PlusOne.spec_as_str());
    lemma_reaction_content_round_trip(ReactionContent::PlusOne);
    lemma_trim_plain(ReactionContent::MinusOne.spec_as_str());
    lemma_reaction_content_round_trip(ReactionContent::MinusOne);
    lemma_trim_plain(ReactionContent::Laugh.spec_as_str());
    lemma_reaction_content_round_trip(ReactionContent::Laugh);
    lemma_trim_plain(ReactionContent::Confused.spec_as_str());
    lemma_reaction_content_round_trip(ReactionContent::Confused);
    lemma_trim_plain(ReactionContent::Heart.spec_as_str());
    lemma_reaction_content_round_trip(ReactionContent::Heart);
    lemma_trim_plain(ReactionContent::Hooray.spec_as_str());
    lemma_reaction_content_round_trip(ReactionContent::Hooray);
    lemma_trim_plain(ReactionContent::Rocket.spec_as_str());
    lemma_reaction_content_round_trip(ReactionContent::Rocket);
    lemma_trim_plain(ReactionContent::Eyes.spec_as_str());
    lemma_reaction_content_round_trip(ReactionContent::Eyes);
}

/// Parsing the canonical spelling of any value gives that value back.
pub proof fn lemma_reaction_content_round_trip(x: ReactionContent)
    ensures
        ReactionContent::from_text(trim(x.spec_as_str())) == Some(x),
{
    reveal_strlit("+1");
    reveal_strlit("-1");
    reveal_strlit("laugh");
    reveal_strlit("confused");
    reveal_strlit("heart");
    reveal_strlit("hooray");
    reveal_strlit("rocket");
    reveal_strlit("eyes");
    lemma_trim_plain(x.spec_as_str());
}

/// Where a label is defined: on an organization or on one repository.
#[derive(Debug, Clone, Copy, PartialEq, Eq, Structural)]
pub enum LabelScope {
    Org,
    Repo,
}

/// Kind of a link from an issue: another issue, or a pull-request stub.
#[derive(Debug, Clone, Copy, PartialEq, Eq, Structural)]
pub enum IssueLinkKind {
    Issue,
    PrStub,
}

impl IssueLinkKind {
    /// The canonical spelling of the value.
    pub open spec fn spec_as_str(self) -> Seq<char> {
        match self {
            IssueLinkKind::Issue => "issue"@,
            IssueLinkKind::PrStub => "pr_stub"@,
        }
    }

    /// The value a trimmed spelling names, if any.
    pub open spec fn from_text(t: Seq<char>) -> Option<IssueLinkKind> {
        if t == "issue"@ {
            Some(IssueLinkKind::Issue)
        } else if t == "pr_stub"@ {
            Some(IssueLinkKind::PrStub)
        } else {
            None
        }
    }

    pub fn as_str(self) -> (r: &'static str)
        ensures
            r@ == self.spec_as_str(),
    {
        match self {
            IssueLinkKind::Issue => "issue",
            IssueLinkKind::PrStub => "pr_stub",
        }
    }

    /// Parses a spelling, ignoring surrounding whitespace.
    pub fn parse(s: &str) -> (r: Result<IssueLinkKind, String>)
        ensures
            match r {
                Ok(x) => IssueLinkKind::from_text(trim(s@)) == Some(x),
                Err(e) => IssueLinkKind::from_text(trim(s@)) is None && e@ == "invalid issue link kind: "@ + trim(s@),
            },
    {
        let t = trim_chars(&chars_of(s));
        if chars_eq_str(&t, "issue") {
            Ok(IssueLinkKind::Issue)
        } else if chars_eq_str(&t, "pr_stub") {
            Ok(IssueLinkKind::PrStub)
        } else {
            Err(concat_str_chars("invalid issue link kind: ", &t))
        }
    }
}

/// Each value is spelled by its own name (`issue`, `pr_stub`), and each of those spellings reads
/// back as that value.
pub proof fn lemma_issue_link_kind_spellings()
    ensures
        IssueLinkKind::Issue.spec_as_str() == "issue"@,
        IssueLinkKind::PrStub.spec_as_str() == "pr_stub"@,
        IssueLinkKind::from_text("issue"@) == Some(IssueLinkKind::Issue),
        IssueLinkKind::from_text("pr_stub"@) == Some(IssueLinkKind::PrStub),
{
    reveal_strlit("issue");
    reveal_strlit("pr_stub");
    lemma_trim_plain(IssueLinkKind::Issue.spec_as_str());
    lemma_issue_link_kind_round_trip(IssueLinkKind::Issue);
    lemma_trim_plain(IssueLinkKind::PrStub.spec_as_str());
    lemma_issue_link_kind_round_trip(IssueLinkKind::PrStub);
}

/// Parsing the canonical spelling of any value gives that value back.
pub proof fn lemma_issue_link_kind_round_trip(x: IssueLinkKind)
    ensures
        IssueLinkKind::from_text(trim(x.spec_as_str())) == Some(x),
{
    reveal_strlit("issue");
    reveal_strlit("pr_stub");
    lemma_trim_plain(x.spec_as_str());
}

/// Public issue metadata (list/detail).
#[derive(Debug, Clone)]
pub struct IssuePublic {
    pub id: String,
    pub repo_id: String,
    pub number: i64,
    pub title: String,
    pub body: String,
    pub state: IssueState,
    pub author_id: String,
    pub author_username: String,
    pub closed_at: Option<String>,
    pub closed_by: Option<String>,
    pub created_at: String,
    pub updated_at: String,
    pub labels: Vec<LabelPublic>,
    pub assignees: Vec<IssueAssigneePublic>,
}

#[derive(Debug, Clone)]
pub struct IssueAssigneePublic {
    pub user_id: String,
    pub username: String,
    pub display_name: String,
}

/// Label definition returned over RPC.
#[derive(Debug, Clone)]
pub struct LabelPublic {
    pub id: String,
    pub name: String,
    pub color: String,
    pub description: String,
    pub scope: LabelScope,
    pub org_id: Option<String>,
    pub repo_id: Option<String>,
    /// True when this org label is hidden for the current repo effective set.
    pub hidden: bool,
}

/// Create org or repo label definition.
#[derive(Debug, Clone)]
pub struct CreateLabelRequest {
    pub scope: LabelScope,
    /// Org slug (scope=org) or repo owner slug/username (scope=repo).
    pub owner: String,
    /// Repo name when `scope` is `repo`.
    pub repo: Option<String>,
    pub name: String,
    pub color: String,
    pub description: Option<String>,
}

/// Update label fields and/or repo hide override for an org label.
#[derive(Debug, Clone)]
pub struct UpdateLabelRequest {
    pub id: String,
    /// Org slug or repo owner (auth context).
    pub owner: String,
    /// Repo name when mutating a repo-local label or toggling hide.
    pub repo: Option<String>,
    pub name: Option<String>,
    pub color: Option<String>,
    pub description: Option<String>,
    /// Hide/unhide an org label for a repo (requires `repo`).
    pub hidden: Option<bool>,
}

/// Delete a label definition (Admin).
#[derive(Debug, Clone)]
pub struct DeleteLabelRequest {
    pub id: String,
    pub owner: String,
    pub repo: Option<String>,
}

/// List effective (or include-hidden) labels for a repo.
#[derive(Debug, Clone)]
pub struct ListLabelsForRepoRequest {
    pub owner: String,
    pub name: String,
    /// When true (Admin), include hidden org labels with `hidden: true`.
    pub include_hidden: Option<bool>,
}

#[derive(Debug, Clone)]
pub struct LabelsListResponse {
    pub labels: Vec<LabelPublic>,
}

/// Replace issue label set by id.
#[derive(Debug, Clone)]
pub struct SetIssueLabelsRequest {
    pub owner: String,
    pub name: String,
    pub number: i64,
    pub label_ids: Vec<String>,
}

/// Create-issue input.
#[derive(Debug, Clone)]
pub struct CreateIssueRequest {
    pub owner: String,
    pub name: String,
    pub title: String,
    pub body: Option<String>,
}

/// Issue get / mutate path — owner + repo name + `#N`.
#[derive(Debug, Clone)]
pub struct IssueRefRequest {
    pub owner: String,
    pub name: String,
    pub number: i64,
}

/// Update title and/or body. Omitted fields keep current values.
#[derive(Debug, Clone)]
pub struct UpdateIssueRequest {
    pub owner: String,
    pub name: String,
    pub number: i64,
    pub title: Option<String>,
    pub body: Option<String>,
}

/// Admin hard-delete with typed confirm.
#[derive(Debug, Clone)]
pub struct DeleteIssueRequest {
    pub owner: String,
    pub name: String,
    pub number: i64,
    pub confirm_number: i64,
}

#[derive(Debug, Clone)]
pub struct DeleteIssueResponse {
    pub number: i64,
}

/// One prior title/body snapshot.
#[derive(Debug, Clone)]
pub struct IssueRevisionPublic {
    pub id: String,
    pub issue_id: String,
    pub editor_id: String,
    pub editor_username: String,
    pub title: String,
    pub body: String,
    pub created_at: String,
}

#[derive(Debug, Clone)]
pub struct IssueHistoryResponse {
    pub revisions: Vec<IssueRevisionPublic>,
}

/// List filters.
#[derive(Debug, Clone)]
pub struct IssueListRequest {
    pub owner: String,
    pub name: String,
    /// `open` | `closed` | `all` — default open.
    pub state: Option<String>,
    pub author: Option<String>,
    pub label: Option<String>,
    pub assignee: Option<String>,
    pub q: Option<String>,
    pub offset: Option<i64>,
    pub limit: Option<i64>,
}

#[derive(Debug, Clone)]
pub struct IssueListResponse {
    pub issues: Vec<IssuePublic>,
    pub total: i64,
}

/// Comment on an issue.
#[derive(Debug, Clone)]
pub struct IssueCommentPublic {
    pub id: String,
    pub issue_id: String,
    pub author_id: String,
    pub author_username: String,
    pub body: String,
    pub created_at: String,
    pub updated_at: String,
}

/// Create comment on an issue (Write+).
#[derive(Debug, Clone)]
pub struct CreateIssueCommentRequest {
    pub owner: String,
    pub name: String,
    pub number: i64,
    pub body: String,
}

/// Update / delete / history for a comment on an issue.
#[derive(Debug, Clone)]
pub struct IssueCommentRefRequest {
    pub owner: String,
    pub name: String,
    pub number: i64,
    pub comment_id: String,
}

/// Update comment body.
#[derive(Debug, Clone)]
pub struct UpdateIssueCommentRequest {
    pub owner: String,
    pub name: String,
    pub number: i64,
    pub comment_id: String,
    pub body: String,
}

#[derive(Debug, Clone)]
pub struct IssueCommentsListResponse {
    pub comments: Vec<IssueCommentPublic>,
}

#[derive(Debug, Clone)]
pub struct DeleteIssueCommentResponse {
    pub ok: bool,
}

/// One prior comment body snapshot.
#[derive(Debug, Clone)]
pub struct CommentRevisionPublic {
    pub id: String,
    pub comment_id: String,
    pub editor_id: String,
    pub editor_username: String,
    pub body: String,
    pub created_at: String,
}

#[derive(Debug, Clone)]
pub struct CommentHistoryResponse {
    pub revisions: Vec<CommentRevisionPublic>,
}

/// Linked issue / PR stub row.
#[derive(Debug, Clone)]
pub struct IssueLinkPublic {
    pub id: String,
    pub kind: IssueLinkKind,
    pub target_repo_id: Option<String>,
    pub target_number: Option<i64>,
    pub target_opaque_id: Option<String>,
    pub title: Option<String>,
    pub created_at: String,
}

} // verus!
