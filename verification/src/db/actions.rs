//! Actions runners, runs, jobs and secret metadata rows.

use vstd::prelude::*;

verus! {

#[derive(Debug, Clone)]
pub struct ActionRunnerRow {
    pub id: String,
    pub name: String,
    pub token_hash: String,
    pub labels_json: String,
    pub owner_type: Option<String>,
    pub owner_id: Option<String>,
    pub repository_id: Option<String>,
    pub ephemeral: bool,
    pub last_online: Option<String>,
    pub created_at: String,
    pub updated_at: String,
}

#[derive(Debug, Clone)]
pub struct ActionRunRow {
    pub id: String,
    pub repository_id: String,
    pub workflow_path: String,
    pub workflow_name: String,
    pub event: String,
    pub head_sha: String,
    pub head_ref: String,
    pub status: String,
    pub title: String,
    pub triggered_by: Option<String>,
    pub created_at: String,
    pub updated_at: String,
    pub finished_at: Option<String>,
}

#[derive(Debug, Clone)]
pub struct ActionJobRow {
    pub id: String,
    pub run_id: String,
    pub job_key: String,
    pub name: String,
    pub runs_on_json: String,
    pub status: String,
    pub runner_id: Option<String>,
    pub started_at: Option<String>,
    pub finished_at: Option<String>,
    pub created_at: String,
    pub updated_at: String,
}

#[derive(Debug, Clone)]
pub struct ActionSecretMetaRow {
    pub id: String,
    pub repository_id: String,
    pub name: String,
    pub created_at: String,
    pub updated_at: String,
}

} // verus!
