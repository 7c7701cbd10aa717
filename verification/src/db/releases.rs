//! Releases and release assets.

use vstd::prelude::*;

verus! {

#[derive(Debug, Clone)]
pub struct ReleaseRow {
    pub id: String,
    pub repo_id: String,
    pub tag_name: String,
    pub title: String,
    pub body: String,
    pub draft: bool,
    pub prerelease: bool,
    pub author_id: String,
    pub created_at: String,
    pub updated_at: String,
}

#[derive(Debug, Clone)]
pub struct ReleaseAssetRow {
    pub id: String,
    pub release_id: String,
    pub filename: String,
    pub content_type: String,
    pub byte_size: i64,
    pub uploader_id: String,
    pub created_at: String,
    pub updated_at: String,
}

} // verus!
