//! Large-file storage objects.

use vstd::prelude::*;

verus! {

#[derive(Debug, Clone)]
pub struct LfsObjectRow {
    pub oid: String,
    pub size: i64,
    pub created_at: String,
}

} // verus!
