//! Pull requests, pull comments and reviews.

use vstd::prelude::*;
use crate::text::{chars_eq_str, chars_of, concat_str_chars, push_chars, trim, trim_chars};
use crate::pull_types::PullState;

verus! {

#[derive(Debug, Clone)]
pub struct PullRow {
    pub id: String,
    pub repo_id: String,
    pub number: i64,
    pub title: String,
    pub body: String,
    pub state: String,
    pub draft: bool,
    pub author_id: String,
    pub base_ref: String,
    pub base_sha: String,
    pub head_repo_id: String,
    pub head_ref: String,
    pub head_sha: String,
    pub merged_at: Option<String>,
    pub merged_by: Option<String>,
    pub merge_commit_sha: Option<String>,
    pub merge_method: Option<String>,
    pub closed_at: Option<String>,
    pub closed_by: Option<String>,
    pub created_at: String,
    pub updated_at: String,
}

#[derive(Debug, Clone)]
pub struct RepoMergeSettingsRow {
    pub allow_merge_commit: bool,
    pub allow_squash_merge: bool,
    pub allow_rebase_merge: bool,
}

/// Search filters for pull request titles and bodies.
#[derive(Debug, Clone, Default)]
pub struct PullSearchFilters<'a> {
    /// `open` | `closed` | `all` (empty → all for search).
    pub state: &'a str,
    pub author_id: Option<&'a str>,
    pub q: Option<&'a str>,
    pub offset: u32,
    pub limit: u32,
}

#[derive(Debug, Clone)]
pub struct PullCommentRow {
    pub id: String,
    pub pull_id: String,
    pub author_id: String,
    pub body: String,
    pub path: Option<String>,
    pub side: Option<String>,
    pub line: Option<i64>,
    pub start_line: Option<i64>,
    pub commit_sha: Option<String>,
    pub outdated: bool,
    pub resolved: bool,
    pub review_id: Option<String>,
    pub created_at: String,
    pub updated_at: String,
}

#[derive(Debug, Clone)]
pub struct PullReviewRow {
    pub id: String,
    pub pull_id: String,
    pub author_id: String,
    pub state: String,
    pub body: String,
    pub commit_sha: Option<String>,
    pub submitted_at: String,
    pub dismissed_at: Option<String>,
    pub dismiss_reason: Option<String>,
}


/// Page size used for a requested limit: between 1 and 100.
pub open spec fn spec_clamp_limit(limit: u32) -> u32 {
    if limit < 1 {
        1
    } else if limit > 100 {
        100
    } else {
        limit
    }
}

fn clamp_limit(limit: u32) -> (r: u32)
    ensures
        r == spec_clamp_limit(limit),
{
    if limit < 1 {
        1
    } else if limit > 100 {
        100
    } else {
        limit
    }
}

/// The state a pull listing selects (`None` lists every state: no filter, or exactly `all`)
/// and the page size it uses.
pub fn list_window<'a>(state: Option<&'a str>, limit: u32) -> (r: (Option<&'a str>, u32))
    ensures
        r.1 == spec_clamp_limit(limit),
        1 <= r.1 <= 100,
        1 <= limit <= 100 ==> r.1 == limit,
        match state {
            Some(st) => if st@ == "all"@ {
                r.0 is None
            } else {
                r.0 == Some(st)
            },
            None => r.0 is None,
        },
{
    let st = match state {
        Some(s) => {
            if chars_eq_str(&chars_of(s), "all") {
                None
            } else {
                Some(s)
            }
        },
        None => None,
    };
    (st, clamp_limit(limit))
}

/// SQL `LIKE` pattern matching any text that contains `q`.
pub fn pull_like_pattern(q: &str) -> (r: String)
    ensures
        r@ == "%"@ + q@ + "%"@,
{
    let mut r = String::from_str("%");
    push_chars(&mut r, &chars_of(q));
    push_chars(&mut r, &chars_of("%"));
    r
}

/// The state a trimmed search filter selects: `open` or `closed`; anything else searches all.
pub open spec fn spec_search_state(t: Seq<char>) -> Option<Seq<char>> {
    if t == "open"@ {
        Some("open"@)
    } else if t == "closed"@ {
        Some("closed"@)
    } else {
        None
    }
}

/// A search narrows to a state only when its filter spells `open` or `closed`, and then to that
/// very state; every other filter, `merged` included, searches all states.
pub proof fn lemma_pull_search_state_rules(t: Seq<char>)
    ensures
        spec_search_state(t) matches Some(x) ==> x == t,
        t == "open"@ ==> spec_search_state(t) == Some("open"@),
        t == "closed"@ ==> spec_search_state(t) == Some("closed"@),
        spec_search_state(t) matches Some(x) ==> (PullState::from_text(x) matches Some(ps)
            && ps != PullState::Merged),
        t == "merged"@ ==> spec_search_state(t) is None,
{
    reveal_strlit("open");
    reveal_strlit("closed");
    reveal_strlit("merged");
    if t == "merged"@ {
        assert("merged"@[0] != "open"@[0]);
        assert("merged"@[0] != "closed"@[0]);
    }
    if t == "open"@ {
        assert("open"@[0] != "closed"@[0]);
    }
}

/// A page size held to 1..=100: never empty, never above 100, and a size already in range
/// is kept.
pub proof fn lemma_clamp_limit_range(limit: u32)
    ensures
        1 <= spec_clamp_limit(limit) <= 100,
        1 <= limit <= 100 ==> spec_clamp_limit(limit) == limit,
        limit > 100 ==> spec_clamp_limit(limit) == 100,
{
}

/// The state a search filter selects, ignoring surrounding whitespace.
pub fn normalize_pull_search_state(state: &str) -> (r: Option<&'static str>)
    ensures
        match r {
            Some(s) => spec_search_state(trim(state@)) == Some(s@),
            None => spec_search_state(trim(state@)) is None,
        },
        r matches Some(s) ==> s@ == trim(state@),
        trim(state@) == "open"@ ==> (r matches Some(s) && s@ == "open"@),
        trim(state@) == "closed"@ ==> (r matches Some(s) && s@ == "closed"@),
        r matches Some(s) ==> (PullState::from_text(s@) matches Some(ps) && ps != PullState::Merged),
{
    proof {
        lemma_pull_search_state_rules(trim(state@));
    }
    let t = trim_chars(&chars_of(state));
    if chars_eq_str(&t, "open") {
        Some("open")
    } else if chars_eq_str(&t, "closed") {
        Some("closed")
    } else {
        None
    }
}

/// The query a pull search runs: state, author, title/body pattern and page window.
#[derive(Debug, Clone)]
pub struct PullSearchQuery<'a> {
    pub state: Option<&'static str>,
    pub author_id: Option<&'a str>,
    /// `LIKE` pattern for the trimmed search text; `None` when the text is absent or blank.
    pub pattern: Option<String>,
    pub offset: u32,
    pub limit: u32,
}

/// The search query for the given filters: the state normalized, an empty author ignored,
/// the search text trimmed (blank text ignored) and wrapped as a `LIKE` pattern, and the page
/// size clamped to 1..=100.
pub fn search_query<'a>(filters: &PullSearchFilters<'a>) -> (r: PullSearchQuery<'a>)
    ensures
        match r.state {
            Some(s) => spec_search_state(trim(filters.state@)) == Some(s@),
            None => spec_search_state(trim(filters.state@)) is None,
        },
        match filters.author_id {
            Some(a) => if a@.len() == 0 {
                r.author_id is None
            } else {
                r.author_id == Some(a)
            },
            None => r.author_id is None,
        },
        match filters.q {
            Some(q) => if trim(q@).len() == 0 {
                r.pattern is None
            } else {
                r.pattern matches Some(p) && p@ == "%"@ + trim(q@) + "%"@
            },
            None => r.pattern is None,
        },
        r.offset == filters.offset,
        r.limit == spec_clamp_limit(filters.limit),
        1 <= r.limit <= 100,
        1 <= filters.limit <= 100 ==> r.limit == filters.limit,
        r.state matches Some(s) ==> s@ == trim(filters.state@),
{
    proof {
        lemma_pull_search_state_rules(trim(filters.state@));
    }
    let state = normalize_pull_search_state(filters.state);
    let author_id = match filters.author_id {
        Some(a) => if a.is_empty() {
            None
        } else {
            Some(a)
        },
        None => None,
    };
    let pattern = match filters.q {
        Some(q) => {
            let t = trim_chars(&chars_of(q));
            if t.len() == 0 {
                None
            } else {
                let mut p = String::from_str("%");
                push_chars(&mut p, &t);
                push_chars(&mut p, &chars_of("%"));
                Some(p)
            }
        },
        None => None,
    };
    PullSearchQuery {
        state,
        author_id,
        pattern,
        offset: filters.offset,
        limit: clamp_limit(filters.limit),
    }
}

} // verus!
