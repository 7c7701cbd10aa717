//! SSH public key rows.

use vstd::prelude::*;

verus! {

#[derive(Debug, Clone)]
pub struct SshKeyRow {
    pub id: String,
    pub user_id: String,
    pub title: String,
    pub public_key: String,
    pub fingerprint: String,
    pub key_type: String,
    pub last_used_at: Option<String>,
    pub last_used_ip: Option<String>,
    pub created_at: String,
}

} // verus!
