//! Account email address types.

use vstd::prelude::*;

verus! {

/// `email.add` input.
#[derive(Debug, Clone)]
pub struct AddEmailRequest {
    pub email: String,
}

/// `email.remove` / `email.setPrimary` / `email.resendVerify` input.
#[derive(Debug, Clone)]
pub struct EmailIdRequest {
    pub id: String,
}

/// One account email row for settings UI.
#[derive(Debug, Clone)]
pub struct EmailListItem {
    pub id: String,
    pub email: String,
    pub is_primary: bool,
    pub verified: bool,
    pub verified_at: Option<String>,
    pub created_at: String,
}

} // verus!
