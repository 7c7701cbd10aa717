//! Repositories.

use vstd::prelude::*;

verus! {

#[derive(Debug, Clone)]
pub struct RepositoryRow {
    pub id: String,
    pub owner_id: String,
    /// Polymorphic owner discriminant: `user` | `org`.
    pub owner_type: String,
    pub name: String,
    pub visibility: String,
    pub description: String,
    pub default_branch: String,
    pub deleted_at: Option<String>,
    pub created_at: String,
    pub updated_at: String,
}

/// On-disk identity for a repository row (active or soft-deleted).
#[derive(Debug, Clone)]
pub struct RepoDiskRef {
    pub id: String,
    pub owner_username: String,
    pub name: String,
    pub deleted_at: Option<String>,
}

} // verus!
