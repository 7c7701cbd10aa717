//! Repository collaborators.

use vstd::prelude::*;

verus! {

#[derive(Debug, Clone)]
pub struct RepoCollaboratorRow {
    pub repo_id: String,
    pub user_id: String,
    pub permission: String,
    pub created_at: String,
}

/// Collaborator row with username for `repo.collaborators.list` (no email).
#[derive(Debug, Clone)]
pub struct RepoCollaboratorListRow {
    pub repo_id: String,
    pub user_id: String,
    pub username: String,
    pub permission: String,
    pub created_at: String,
}

} // verus!
