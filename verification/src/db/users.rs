//! User accounts.

use vstd::prelude::*;

verus! {

#[derive(Debug, Clone)]
pub struct UserRow {
    pub id: String,
    pub email: String,
    pub username: String,
    pub password_hash: Option<String>,
    pub display_name: String,
    pub bio: String,
    pub avatar_path: Option<String>,
    /// Role as stored, such as `sys-admin`.
    pub role: String,
    pub must_change_credentials: bool,
    pub email_verified_at: Option<String>,
    pub created_at: String,
    pub updated_at: String,
}

} // verus!
