//! Repository types and repository-name validation.

use vstd::prelude::*;
use crate::auth_types::{chars_are_reserved, is_reserved_name};
use crate::text::{
    char_is_ascii_alnum, chars_eq_str, chars_of, concat_str_chars, is_ascii_alnum, lemma_trim_plain, trim,
    trim_chars,
};

verus! {

/// Repository visibility.
#[derive(Debug, Clone, Copy, PartialEq, Eq, Structural)]
pub enum RepoVisibility {
    Public,
    Private,
}

impl RepoVisibility {
    /// The canonical spelling of the value.
    pub open spec fn spec_as_str(self) -> Seq<char> {
        match self {
            RepoVisibility::Public => "public"@,
            RepoVisibility::Private => "private"@,
        }
    }

    /// The value a trimmed spelling names, if any.
    pub open spec fn from_text(t: Seq<char>) -> Option<RepoVisibility> {
        if t == "public"@ {
            Some(RepoVisibility::Public)
        } else if t == "private"@ {
            Some(RepoVisibility::Private)
        } else {
            None
        }
    }

    pub fn as_str(self) -> (r: &'static str)
        ensures
            r@ == self.spec_as_str(),
    {
        match self {
            RepoVisibility::Public => "public",
            RepoVisibility::Private => "private",
        }
    }

    /// Parses a spelling, ignoring surrounding whitespace.
    pub fn parse(s: &str) -> (r: Result<RepoVisibility, String>)
        ensures
            match r {
                Ok(x) => RepoVisibility::from_text(trim(s@)) == Some(x),
                Err(e) => RepoVisibility::from_text(trim(s@)) is None && e@ == "invalid visibility: "@ + trim(s@),
            },
    {
        let t = trim_chars(&chars_of(s));
        if chars_eq_str(&t, "public") {
            Ok(RepoVisibility::Public)
        } else if chars_eq_str(&t, "private") {
            Ok(RepoVisibility::Private)
        } else {
            Err(concat_str_chars("invalid visibility: ", &t))
        }
    }
}

/// Each value is spelled by its own name (`public`, `private`), and each of those spellings reads
/// back as that value.
pub proof fn lemma_repo_visibility_spellings()
    ensures
        RepoVisibility::Public.spec_as_str() == "public"@,
        RepoVisibility::Private.spec_as_str() == "private"@,
        RepoVisibility::from_text("public"@) == Some(RepoVisibility::Public),
        RepoVisibility::from_text("private"@) == Some(RepoVisibility::Private),
{
    reveal_strlit("public");
    reveal_strlit("private");
    lemma_trim_plain(RepoVisibility::Public.spec_as_str());
    lemma_repo_visibility_round_trip(RepoVisibility::Public);
    lemma_trim_plain(RepoVisibility::Private.spec_as_str());
    lemma_repo_visibility_round_trip(RepoVisibility::Private);
}

/// Parsing the canonical spelling of any value gives that value back.
pub proof fn lemma_repo_visibility_round_trip(x: RepoVisibility)
    ensures
        RepoVisibility::from_text(trim(x.spec_as_str())) == Some(x),
{
    reveal_strlit("public");
    reveal_strlit("private");
    lemma_trim_plain(x.spec_as_str());
}

/// Create-repository input.
#[derive(Debug, Clone)]
pub struct CreateRepoRequest {
    pub name: String,
    pub description: Option<String>,
    pub visibility: RepoVisibility,
}

/// Public repository metadata returned over RPC.
#[derive(Debug, Clone)]
pub struct RepoPublic {
    pub id: String,
    pub owner_id: String,
    pub owner_username: String,
    pub name: String,
    pub description: String,
    pub visibility: RepoVisibility,
    pub default_branch: String,
    pub updated_at: String,
}


/// Character allowed in a repository name: ASCII letter, digit, hyphen, underscore or period.
pub open spec fn is_repo_name_char(c: char) -> bool {
    is_ascii_alnum(c) || c == '-' || c == '_' || c == '.'
}

/// The error `validate_repo_name` reports for `raw`, or `None` when the name is acceptable:
/// after trimming, not empty, only letters, digits, hyphens, underscores and periods, and not
/// a reserved path segment (the reserved usernames, ignoring ASCII case). The first failing
/// rule, in that order, decides the message.
pub open spec fn repo_name_error(raw: Seq<char>) -> Option<Seq<char>> {
    let n = trim(raw);
    if n.len() == 0 {
        Some("repository name is required"@)
    } else if !(forall|i: int| 0 <= i < n.len() ==> #[trigger] is_repo_name_char(n[i])) {
        Some("repository name may only contain letters, digits, hyphens, underscores and periods"@)
    } else if is_reserved_name(n) {
        Some("repository name is reserved"@)
    } else {
        None
    }
}

/// An accepted repository name is not empty after trimming and holds only ASCII letters,
/// digits, hyphens, underscores and periods; a name with any other character is refused.
pub proof fn lemma_repo_name_rules(raw: Seq<char>)
    ensures
        repo_name_error(raw) is None ==> trim(raw).len() >= 1,
        repo_name_error(raw) is None ==> forall|i: int| 0 <= i < trim(raw).len() ==> {
            let c = #[trigger] trim(raw)[i];
            ('0' <= c && c <= '9') || ('a' <= c && c <= 'z') || ('A' <= c && c <= 'Z') || c == '-'
                || c == '_' || c == '.'
        },
        forall|i: int| 0 <= i < trim(raw).len() && !('0' <= #[trigger] trim(raw)[i] <= '9')
            && !('a' <= trim(raw)[i] <= 'z') && !('A' <= trim(raw)[i] <= 'Z') && trim(raw)[i] != '-'
            && trim(raw)[i] != '_' && trim(raw)[i] != '.' ==> repo_name_error(raw) is Some,
{
    let n = trim(raw);
    if repo_name_error(raw) is None {
        assert forall|i: int| 0 <= i < n.len() implies {
            let c = #[trigger] n[i];
            ('0' <= c && c <= '9') || ('a' <= c && c <= 'z') || ('A' <= c && c <= 'Z') || c == '-'
                || c == '_' || c == '.'
        } by {
            assert(is_repo_name_char(n[i]));
        }
    }
    assert forall|i: int| 0 <= i < n.len() && !('0' <= #[trigger] n[i] <= '9') && !('a' <= n[i]
        <= 'z') && !('A' <= n[i] <= 'Z') && n[i] != '-' && n[i] != '_' && n[i] != '.' implies
        repo_name_error(raw) is Some by {
        assert(!is_repo_name_char(n[i]));
    }
}

fn all_repo_name_chars(v: &Vec<char>) -> (b: bool)
    ensures
        b == (forall|i: int| 0 <= i < v@.len() ==> #[trigger] is_repo_name_char(v@[i])),
{
    let mut k: usize = 0;
    while k < v.len()
        invariant
            k <= v@.len(),
            forall|i: int| 0 <= i < k ==> #[trigger] is_repo_name_char(v@[i]),
        decreases v.len() - k,
    {
        let c = v[k];
        if !(char_is_ascii_alnum(c) || c == '-' || c == '_' || c == '.') {
            assert(!is_repo_name_char(v@[k as int]));
            return false;
        }
        k = k + 1;
    }
    true
}

/// Repository name rules: letters, digits, hyphen, underscore, period; not empty and not a
/// reserved path segment. Surrounding whitespace is ignored.
pub fn validate_repo_name(raw: &str) -> (r: Result<(), String>)
    ensures
        match r {
            Ok(_) => repo_name_error(raw@) is None,
            Err(e) => repo_name_error(raw@) == Some(e@),
        },
        r is Ok ==> trim(raw@).len() >= 1,
        r is Ok ==> forall|i: int| 0 <= i < trim(raw@).len() ==> {
            let c = #[trigger] trim(raw@)[i];
            ('0' <= c && c <= '9') || ('a' <= c && c <= 'z') || ('A' <= c && c <= 'Z') || c == '-'
                || c == '_' || c == '.'
        },
{
    proof {
        lemma_repo_name_rules(raw@);
    }
    let n = trim_chars(&chars_of(raw));
    if n.len() == 0 {
        return Err(String::from_str("repository name is required"));
    }
    if !all_repo_name_chars(&n) {
        return Err(
            String::from_str(
                "repository name may only contain letters, digits, hyphens, underscores and periods",
            ),
        );
    }
    if chars_are_reserved(&n) {
        return Err(String::from_str("repository name is reserved"));
    }
    Ok(())
}

} // verus!
