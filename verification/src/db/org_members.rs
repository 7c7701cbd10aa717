//! Organization memberships.

use vstd::prelude::*;

verus! {

#[derive(Debug, Clone)]
pub struct OrgMemberRow {
    pub org_id: String,
    pub user_id: String,
    pub role: String,
    pub created_at: String,
}

} // verus!
