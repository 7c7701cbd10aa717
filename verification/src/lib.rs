//! Shared domain types of a self-hosted code forge, with the value vocabularies,
//! name validation and the decision logic of its database adapter.

use vstd::prelude::*;

pub mod text;

pub mod db;
pub mod migrate_cli;

pub mod action_types;
pub mod auth_types;
pub mod email_types;
pub mod gpg_key_types;
pub mod issue_types;
pub mod mirror_types;
pub mod org_types;
pub mod package_types;
pub mod pat_types;
pub mod pull_types;
pub mod repo_types;
pub mod ssh_key_types;

verus! {

/// The crate's own name as published.
pub fn crate_name() -> (r: &'static str)
    ensures
        r@ == "octanest-core"@,
{
    "octanest-core"
}

/// Version of the RPC wire protocol.
pub const RPC_PROTOCOL_VERSION: u32 = 1;

/// Largest echo message, in bytes.
pub const ECHO_MAX_BYTES: usize = 8192;

#[derive(Debug, Clone)]
pub struct HealthResponse {
    pub status: String,
    pub version: String,
    /// `"ok"`, `"error"`, or `"skipped"` when no database is configured or no ping was attempted.
    pub database: String,
}

#[derive(Debug, Clone)]
pub struct DbProbeResponse {
    pub dialect: String,
    pub probe_count: i64,
    pub probed_at: String,
}

#[derive(Debug, Clone)]
pub struct EchoRequest {
    pub message: String,
}

#[derive(Debug, Clone)]
pub struct EchoResponse {
    pub message: String,
}

} // verus!
