//! Personal access token rows.

use vstd::prelude::*;

verus! {

#[derive(Debug, Clone)]
pub struct PatRow {
    pub id: String,
    pub user_id: String,
    pub kind: String,
    pub name: String,
    pub token_prefix: String,
    pub token_hash: String,
    pub scopes_json: Option<String>,
    pub contents_perm: Option<String>,
    pub repo_access: Option<String>,
    pub expires_at: Option<String>,
    pub revoked_at: Option<String>,
    pub last_used_at: Option<String>,
    pub last_used_ip: Option<String>,
    pub created_at: String,
    /// Loaded from `personal_access_token_repos` for fine-grained selected repos.
    pub repository_ids: Vec<String>,
}

} // verus!
