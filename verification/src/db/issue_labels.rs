//! Label definitions, hidden-label overrides and issue label/assignee sets.

use vstd::prelude::*;

verus! {

#[derive(Debug, Clone)]
pub struct LabelRow {
    pub id: String,
    pub name: String,
    pub color: String,
    pub description: String,
    pub org_id: Option<String>,
    pub repo_id: Option<String>,
    pub created_at: String,
    pub updated_at: String,
}

/// Assignee row joined to users for issue detail / candidates.
#[derive(Debug, Clone)]
pub struct IssueAssigneeRow {
    pub user_id: String,
    pub username: String,
    pub display_name: String,
}


/// A label belongs to exactly one of an organization or a repository.
pub open spec fn scope_is_valid(org_id: Option<&str>, repo_id: Option<&str>) -> bool {
    org_id is Some != repo_id is Some
}

/// Accepts a label scope only when exactly one of `org_id` / `repo_id` is set.
pub fn check_label_scope(org_id: Option<&str>, repo_id: Option<&str>) -> (r: Result<(), String>)
    ensures
        r is Ok <==> scope_is_valid(org_id, repo_id),
        r is Ok <==> ((org_id is Some && repo_id is None) || (org_id is None && repo_id is Some)),
        r matches Err(e) ==> e@ == "label scope requires exactly one of org_id or repo_id"@,
{
    match (org_id, repo_id) {
        (Some(_), None) | (None, Some(_)) => Ok(()),
        _ => Err(String::from_str("label scope requires exactly one of org_id or repo_id")),
    }
}

} // verus!
