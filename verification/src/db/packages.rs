//! Package metadata and blob reference counts.

use vstd::prelude::*;

verus! {

#[derive(Debug, Clone)]
pub struct PackageRow {
    pub id: String,
    pub owner_type: String,
    pub owner_id: String,
    pub name: String,
    pub format: String,
    pub visibility: String,
    pub repository_id: Option<String>,
    pub description: String,
    pub created_at: String,
    pub updated_at: String,
}

#[derive(Debug, Clone)]
pub struct PackageVersionRow {
    pub id: String,
    pub package_id: String,
    pub version: String,
    pub digest: Option<String>,
    pub metadata_json: String,
    pub published_by: Option<String>,
    pub created_at: String,
}

#[derive(Debug, Clone)]
pub struct PackageBlobRow {
    pub digest: String,
    pub size_bytes: i64,
    pub refcount: i64,
    pub created_at: String,
}

#[derive(Debug, Clone)]
pub struct PackageUsageBreakdownRow {
    pub package_id: String,
    pub name: String,
    pub format: String,
    pub bytes: i64,
}

} // verus!
