//! External identity links of users.

use vstd::prelude::*;

verus! {

#[derive(Debug, Clone)]
pub struct AuthIdentityRow {
    pub id: String,
    pub user_id: String,
    pub provider: String,
    pub provider_subject: String,
    pub provider_email: Option<String>,
}

} // verus!
