//! Package registry types.

use vstd::prelude::*;

verus! {

#[derive(Debug, Clone)]
pub struct PackagesListRequest {
    /// Owner username or org slug.
    pub owner: Option<String>,
    /// Filter to packages linked to this repository id.
    pub repository_id: Option<String>,
}

#[derive(Debug, Clone)]
pub struct PackageVersionPublic {
    pub version: String,
    pub digest: Option<String>,
    pub created_at: String,
}

#[derive(Debug, Clone)]
pub struct PackagePublic {
    pub id: String,
    pub owner_type: String,
    pub owner_id: String,
    pub name: String,
    pub format: String,
    pub visibility: String,
    pub repository_id: Option<String>,
    pub versions: Vec<PackageVersionPublic>,
}

#[derive(Debug, Clone)]
pub struct PackagesListResponse {
    pub packages: Vec<PackagePublic>,
}

#[derive(Debug, Clone)]
pub struct PackagesDeleteVersionRequest {
    pub package_id: String,
    pub version: String,
    /// Must equal `{name}@{version}`.
    pub confirm: String,
}

#[derive(Debug, Clone)]
pub struct PackagesDeleteVersionResponse {
    pub ok: bool,
}

} // verus!
