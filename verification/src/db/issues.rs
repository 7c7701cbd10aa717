//! Issues and per-repository issue numbers.

use vstd::prelude::*;
use crate::issue_types::IssueState;
use crate::text::{chars_eq_str, chars_of, concat_str_chars, trim, trim_chars};

verus! {

#[derive(Debug, Clone)]
pub struct IssueRow {
    pub id: String,
    pub repo_id: String,
    pub number: i64,
    pub title: String,
    pub body: String,
    pub state: String,
    pub author_id: String,
    pub closed_at: Option<String>,
    pub closed_by: Option<String>,
    pub created_at: String,
    pub updated_at: String,
}


/// What an issue listing selects: an optional state, and the page window.
#[derive(Debug, Clone, Copy, PartialEq, Eq, Structural)]
pub struct IssueListWindow {
    /// `None` lists issues in every state.
    pub state: Option<IssueState>,
    pub offset: i64,
    pub limit: i64,
}

/// The state selection a trimmed filter names: `Some(Some(s))` for one state, `Some(None)` for
/// all states, `None` for an unknown filter. Empty means open.
pub open spec fn state_filter_selection(t: Seq<char>) -> Option<Option<IssueState>> {
    if t == ""@ || t == "open"@ {
        Some(Some(IssueState::Open))
    } else if t == "closed"@ {
        Some(Some(IssueState::Closed))
    } else if t == "all"@ {
        Some(None)
    } else {
        None
    }
}

/// Page offset used for a requested offset: negative offsets start at the beginning.
pub open spec fn spec_list_offset(offset: i64) -> i64 {
    if offset < 0 {
        0
    } else {
        offset
    }
}

/// Page size used for a requested limit: 30 when unset (zero or negative), at most 100.
pub open spec fn spec_list_limit(limit: i64) -> i64 {
    if limit <= 0 {
        30
    } else if limit > 100 {
        100
    } else {
        limit
    }
}

/// The selection an issue listing makes for a state filter (`open` | `closed` | `all`, empty
/// meaning open, surrounding whitespace ignored) and a requested page window.
pub fn list_window(state_filter: &str, offset: i64, limit: i64) -> (r: Result<IssueListWindow, String>)
    ensures
        match r {
            Ok(w) => {
                &&& state_filter_selection(trim(state_filter@)) == Some(w.state)
                &&& w.offset == spec_list_offset(offset)
                &&& w.limit == spec_list_limit(limit)
            },
            Err(e) => {
                &&& state_filter_selection(trim(state_filter@)) is None
                &&& e@ == "invalid issue state filter: "@ + trim(state_filter@)
            },
        },
        forall|s: IssueState| #[trigger] IssueState::from_text(trim(state_filter@)) == Some(s)
            ==> r == Ok::<IssueListWindow, String>(
            IssueListWindow { state: Some(s), offset: r->Ok_0.offset, limit: r->Ok_0.limit },
        ),
        trim(state_filter@).len() == 0 ==> r is Ok && r->Ok_0.state == Some(IssueState::Open),
        r is Ok ==> (r->Ok_0.state is None <==> trim(state_filter@) == "all"@),
        r is Ok ==> (offset < 0 ==> r->Ok_0.offset == 0) && (offset >= 0 ==> r->Ok_0.offset
            == offset),
        r is Ok ==> (limit <= 0 ==> r->Ok_0.limit == 30) && (limit > 100 ==> r->Ok_0.limit == 100)
            && (1 <= limit <= 100 ==> r->Ok_0.limit == limit),
{
    proof {
        lemma_issue_filter_follows_vocabulary(trim(state_filter@));
    }
    let offset = if offset < 0 { 0 } else { offset };
    let limit = if limit <= 0 { 30 } else if limit > 100 { 100 } else { limit };
    let t = trim_chars(&chars_of(state_filter));
    let state = if chars_eq_str(&t, "") || chars_eq_str(&t, "open") {
        Some(IssueState::Open)
    } else if chars_eq_str(&t, "closed") {
        Some(IssueState::Closed)
    } else if chars_eq_str(&t, "all") {
        None
    } else {
        return Err(concat_str_chars("invalid issue state filter: ", &t));
    };
    Ok(IssueListWindow { state, offset, limit })
}

/// The issue filter speaks the issue-state vocabulary: a filter naming a state selects exactly
/// that state, the empty filter selects open issues, and only `all` lifts the state filter.
pub proof fn lemma_issue_filter_follows_vocabulary(t: Seq<char>)
    ensures
        forall|s: IssueState| #[trigger] IssueState::from_text(t) == Some(s)
            ==> state_filter_selection(t) == Some(Some(s)),
        t.len() == 0 ==> state_filter_selection(t) == Some(Some(IssueState::Open)),
        state_filter_selection(t) == Some(None::<IssueState>) <==> t == "all"@,
        t == "open"@ ==> state_filter_selection(t) == Some(Some(IssueState::Open)),
        t == "closed"@ ==> state_filter_selection(t) == Some(Some(IssueState::Closed)),
{
    reveal_strlit("");
    reveal_strlit("open");
    reveal_strlit("closed");
    reveal_strlit("all");
    if t.len() == 0 {
        assert(t =~= ""@);
    }
    assert forall|s: IssueState| #[trigger] IssueState::from_text(t) == Some(s) implies
        state_filter_selection(t) == Some(Some(s)) by {
        if t == "open"@ {
            assert(s == IssueState::Open);
        } else if t == "closed"@ {
            assert(s == IssueState::Closed);
        }
    }
}

/// Every page an issue listing asks for lies within the table: the offset is never negative
/// and the page holds between 1 and 100 rows.
pub proof fn lemma_list_window_bounds(offset: i64, limit: i64)
    ensures
        spec_list_offset(offset) >= 0,
        1 <= spec_list_limit(limit) <= 100,
{
}

} // verus!
