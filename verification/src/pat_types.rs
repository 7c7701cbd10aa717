//! Personal access token types.
//!
//! List items never carry the plaintext secret; only `CreatePatResponse::token` does.

use vstd::prelude::*;
use crate::text::{chars_eq_str, chars_of, concat_str_chars, lemma_trim_plain, trim, trim_chars};

verus! {

/// Classic token string prefix.
pub const CLASSIC_PAT_PREFIX: &'static str = "octanest_pat_";

/// Fine-grained token string prefix.
pub const FINE_GRAINED_PAT_PREFIX: &'static str = "octanest_fg_";

/// Personal access token kind.
#[derive(Debug, Clone, Copy, PartialEq, Eq, Structural)]
pub enum PatKind {
    Classic,
    FineGrained,
}

impl PatKind {
    /// The canonical spelling of the value.
    pub open spec fn spec_as_str(self) -> Seq<char> {
        match self {
            PatKind::Classic => "classic"@,
            PatKind::FineGrained => "fine_grained"@,
        }
    }

    /// The value a trimmed spelling names, if any.
    pub open spec fn from_text(t: Seq<char>) -> Option<PatKind> {
        if t == "classic"@ {
            Some(PatKind::Classic)
        } else if t == "fine_grained"@ {
            Some(PatKind::FineGrained)
        } else {
            None
        }
    }

    pub fn as_str(self) -> (r: &'static str)
        ensures
            r@ == self.spec_as_str(),
    {
        match self {
            PatKind::Classic => "classic",
            PatKind::FineGrained => "fine_grained",
        }
    }

    /// Parses a spelling, ignoring surrounding whitespace.
    pub fn parse(s: &str) -> (r: Result<PatKind, String>)
        ensures
            match r {
                Ok(x) => PatKind::from_text(trim(s@)) == Some(x),
                Err(e) => PatKind::from_text(trim(s@)) is None && e@ == "invalid pat kind: "@ + trim(s@),
            },
    {
        let t = trim_chars(&chars_of(s));
        if chars_eq_str(&t, "classic") {
            Ok(PatKind::Classic)
        } else if chars_eq_str(&t, "fine_grained") {
            Ok(PatKind::FineGrained)
        } else {
            Err(concat_str_chars("invalid pat kind: ", &t))
        }
    }
}

/// Each value is spelled by its own name (`classic`, `fine_grained`), and each of those
/// spellings reads back as that value; tokens of each kind carry the product's own prefix.
pub proof fn lemma_pat_kind_spellings()
    ensures
        PatKind::Classic.spec_as_str() == "classic"@,
        PatKind::FineGrained.spec_as_str() == "fine_grained"@,
        PatKind::from_text("classic"@) == Some(PatKind::Classic),
        PatKind::from_text("fine_grained"@) == Some(PatKind::FineGrained),
        PatKind::Classic.spec_token_prefix() == "octanest_pat_"@,
        PatKind::FineGrained.spec_token_prefix() == "octanest_fg_"@,
{
    reveal_strlit("classic");
    reveal_strlit("fine_grained");
    lemma_trim_plain(PatKind::Classic.spec_as_str());
    lemma_pat_kind_round_trip(PatKind::Classic);
    lemma_trim_plain(PatKind::FineGrained.spec_as_str());
    lemma_pat_kind_round_trip(PatKind::FineGrained);
}

/// Parsing the canonical spelling of any value gives that value back.
pub proof fn lemma_pat_kind_round_trip(x: PatKind)
    ensures
        PatKind::from_text(trim(x.spec_as_str())) == Some(x),
{
    reveal_strlit("classic");
    reveal_strlit("fine_grained");
    lemma_trim_plain(x.spec_as_str());
}

impl PatKind {
    /// The prefix that tokens of this kind begin with.
    pub open spec fn spec_token_prefix(self) -> Seq<char> {
        match self {
            PatKind::Classic => CLASSIC_PAT_PREFIX@,
            PatKind::FineGrained => FINE_GRAINED_PAT_PREFIX@,
        }
    }

    pub fn token_prefix(self) -> (r: &'static str)
        ensures
            r@ == self.spec_token_prefix(),
    {
        match self {
            PatKind::Classic => CLASSIC_PAT_PREFIX,
            PatKind::FineGrained => FINE_GRAINED_PAT_PREFIX,
        }
    }
}

/// Scope catalog of classic tokens: `repo` only.
#[derive(Debug, Clone, Copy, PartialEq, Eq, Structural)]
pub enum ClassicPatScope {
    Repo,
}

impl ClassicPatScope {
    /// The canonical spelling of the value.
    pub open spec fn spec_as_str(self) -> Seq<char> {
        match self {
            ClassicPatScope::Repo => "repo"@,
        }
    }

    /// The value a trimmed spelling names, if any.
    pub open spec fn from_text(t: Seq<char>) -> Option<ClassicPatScope> {
        if t == "repo"@ {
            Some(ClassicPatScope::Repo)
        } else {
            None
        }
    }

    pub fn as_str(self) -> (r: &'static str)
        ensures
            r@ == self.spec_as_str(),
    {
        match self {
            ClassicPatScope::Repo => "repo",
        }
    }

    /// Parses a spelling, ignoring surrounding whitespace.
    pub fn parse(s: &str) -> (r: Result<ClassicPatScope, String>)
        ensures
            match r {
                Ok(x) => ClassicPatScope::from_text(trim(s@)) == Some(x),
                Err(e) => ClassicPatScope::from_text(trim(s@)) is None && e@ == "invalid classic scope: "@ + trim(s@),
            },
    {
        let t = trim_chars(&chars_of(s));
        if chars_eq_str(&t, "repo") {
            Ok(ClassicPatScope::Repo)
        } else {
            Err(concat_str_chars("invalid classic scope: ", &t))
        }
    }
}

/// Each value is spelled by its own name (`repo`), and each of those spellings reads
/// back as that value.
pub proof fn lemma_classic_pat_scope_spellings()
    ensures
        ClassicPatScope::Repo.spec_as_str() == "repo"@,
        ClassicPatScope::from_text("repo"@) == Some(ClassicPatScope::Repo),
{
    reveal_strlit("repo");
    lemma_trim_plain(ClassicPatScope::Repo.spec_as_str());
    lemma_classic_pat_scope_round_trip(ClassicPatScope::Repo);
}

/// Parsing the canonical spelling of any value gives that value back.
pub proof fn lemma_classic_pat_scope_round_trip(x: ClassicPatScope)
    ensures
        ClassicPatScope::from_text(trim(x.spec_as_str())) == Some(x),
{
    reveal_strlit("repo");
    lemma_trim_plain(x.spec_as_str());
}

/// Which repositories a fine-grained token reaches.
#[derive(Debug, Clone, Copy, PartialEq, Eq, Structural)]
pub enum FgRepoAccess {
    Selected,
    All,
}

impl FgRepoAccess {
    /// The canonical spelling of the value.
    pub open spec fn spec_as_str(self) -> Seq<char> {
        match self {
            FgRepoAccess::Selected => "selected"@,
            FgRepoAccess::All => "all"@,
        }
    }

    /// The value a trimmed spelling names, if any.
    pub open spec fn from_text(t: Seq<char>) -> Option<FgRepoAccess> {
        if t == "selected"@ {
            Some(FgRepoAccess::Selected)
        } else if t == "all"@ {
            Some(FgRepoAccess::All)
        } else {
            None
        }
    }

    pub fn as_str(self) -> (r: &'static str)
        ensures
            r@ == self.spec_as_str(),
    {
        match self {
            FgRepoAccess::Selected => "selected",
            FgRepoAccess::All => "all",
        }
    }

    /// Parses a spelling, ignoring surrounding whitespace.
    pub fn parse(s: &str) -> (r: Result<FgRepoAccess, String>)
        ensures
            match r {
                Ok(x) => FgRepoAccess::from_text(trim(s@)) == Some(x),
                Err(e) => FgRepoAccess::from_text(trim(s@)) is None && e@ == "invalid repo_access: "@ + trim(s@),
            },
    {
        let t = trim_chars(&chars_of(s));
        if chars_eq_str(&t, "selected") {
            Ok(FgRepoAccess::Selected)
        } else if chars_eq_str(&t, "all") {
            Ok(FgRepoAccess::All)
        } else {
            Err(concat_str_chars("invalid repo_access: ", &t))
        }
    }
}

/// Each value is spelled by its own name (`selected`, `all`), and each of those spellings reads
/// back as that value.
pub proof fn lemma_fg_repo_access_spellings()
    ensures
        FgRepoAccess::Selected.spec_as_str() == "selected"@,
        FgRepoAccess::All.spec_as_str() == "all"@,
        FgRepoAccess::from_text("selected"@) == Some(FgRepoAccess::Selected),
        FgRepoAccess::from_text("all"@) == Some(FgRepoAccess::All),
{
    reveal_strlit("selected");
    reveal_strlit("all");
    lemma_trim_plain(FgRepoAccess::Selected.spec_as_str());
    lemma_fg_repo_access_round_trip(FgRepoAccess::Selected);
    lemma_trim_plain(FgRepoAccess::All.spec_as_str());
    lemma_fg_repo_access_round_trip(FgRepoAccess::All);
}

/// Parsing the canonical spelling of any value gives that value back.
pub proof fn lemma_fg_repo_access_round_trip(x: FgRepoAccess)
    ensures
        FgRepoAccess::from_text(trim(x.spec_as_str())) == Some(x),
{
    reveal_strlit("selected");
    reveal_strlit("all");
    lemma_trim_plain(x.spec_as_str());
}

/// Fine-grained contents permission: `read` fetches, `write` also pushes.
#[derive(Debug, Clone, Copy, PartialEq, Eq, Structural)]
pub enum ContentsPerm {
    Read,
    Write,
}

impl ContentsPerm {
    /// The canonical spelling of the value.
    pub open spec fn spec_as_str(self) -> Seq<char> {
        match self {
            ContentsPerm::Read => "read"@,
            ContentsPerm::Write => "write"@,
        }
    }

    /// The value a trimmed spelling names, if any.
    pub open spec fn from_text(t: Seq<char>) -> Option<ContentsPerm> {
        if t == "read"@ {
            Some(ContentsPerm::Read)
        } else if t == "write"@ {
            Some(ContentsPerm::Write)
        } else {
            None
        }
    }

    pub fn as_str(self) -> (r: &'static str)
        ensures
            r@ == self.spec_as_str(),
    {
        match self {
            ContentsPerm::Read => "read",
            ContentsPerm::Write => "write",
        }
    }

    /// Parses a spelling, ignoring surrounding whitespace.
    pub fn parse(s: &str) -> (r: Result<ContentsPerm, String>)
        ensures
            match r {
                Ok(x) => ContentsPerm::from_text(trim(s@)) == Some(x),
                Err(e) => ContentsPerm::from_text(trim(s@)) is None && e@ == "invalid contents_perm: "@ + trim(s@),
            },
    {
        let t = trim_chars(&chars_of(s));
        if chars_eq_str(&t, "read") {
            Ok(ContentsPerm::Read)
        } else if chars_eq_str(&t, "write") {
            Ok(ContentsPerm::Write)
        } else {
            Err(concat_str_chars("invalid contents_perm: ", &t))
        }
    }
}

/// Each value is spelled by its own name (`read`, `write`), and each of those spellings reads
/// back as that value.
pub proof fn lemma_contents_perm_spellings()
    ensures
        ContentsPerm::Read.spec_as_str() == "read"@,
        ContentsPerm::Write.spec_as_str() == "write"@,
        ContentsPerm::from_text("read"@) == Some(ContentsPerm::Read),
        ContentsPerm::from_text("write"@) == Some(ContentsPerm::Write),
{
    reveal_strlit("read");
    reveal_strlit("write");
    lemma_trim_plain(ContentsPerm::Read.spec_as_str());
    lemma_contents_perm_round_trip(ContentsPerm::Read);
    lemma_trim_plain(ContentsPerm::Write.spec_as_str());
    lemma_contents_perm_round_trip(ContentsPerm::Write);
}

/// Parsing the canonical spelling of any value gives that value back.
pub proof fn lemma_contents_perm_round_trip(x: ContentsPerm)
    ensures
        ContentsPerm::from_text(trim(x.spec_as_str())) == Some(x),
{
    reveal_strlit("read");
    reveal_strlit("write");
    lemma_trim_plain(x.spec_as_str());
}

/// `pat.createClassic` input.
#[derive(Debug, Clone)]
pub struct CreateClassicPatRequest {
    /// Required note/name.
    pub name: String,
    /// Must include `repo`.
    pub scopes: Vec<ClassicPatScope>,
    /// Optional expiry; omit / null = no expiration.
    pub expires_at: Option<String>,
}

/// `pat.createFineGrained` input.
#[derive(Debug, Clone)]
pub struct CreateFineGrainedPatRequest {
    /// Required note/name.
    pub name: String,
    pub repo_access: FgRepoAccess,
    /// Required when `repo_access` is `selected`.
    pub repository_ids: Vec<String>,
    pub contents: ContentsPerm,
    pub expires_at: Option<String>,
}

/// List / metadata item — **no** plaintext token field.
#[derive(Debug, Clone)]
pub struct PatListItem {
    pub id: String,
    pub kind: PatKind,
    pub name: String,
    pub token_prefix: String,
    pub scopes: Option<Vec<ClassicPatScope>>,
    pub contents: Option<ContentsPerm>,
    pub repo_access: Option<FgRepoAccess>,
    pub repository_ids: Vec<String>,
    pub expires_at: Option<String>,
    pub last_used_at: Option<String>,
    pub last_used_ip: Option<String>,
    pub created_at: String,
}

/// One-time create response — plaintext `token` only here.
#[derive(Debug, Clone)]
pub struct CreatePatResponse {
    pub token: String,
    pub item: PatListItem,
}

} // verus!
