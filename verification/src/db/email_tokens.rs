//! Email verification and reset tokens.

use vstd::prelude::*;

verus! {

#[derive(Debug, Clone)]
pub struct EmailTokenRow {
    pub id: String,
    pub user_id: String,
    pub purpose: String,
    pub token_hash: String,
    pub otp_hash: String,
    pub expires_at: String,
    pub attempt_count: i32,
    pub issue_count: i32,
    pub created_at: String,
}

} // verus!
