//! SSH public key types.
//!
//! List items may carry the public key, never a secret.

use vstd::prelude::*;

verus! {

/// `sshKey.add` input — title/note required; public key is the OpenSSH one-line form.
#[derive(Debug, Clone)]
pub struct AddSshKeyRequest {
    /// Required title/note.
    pub title: String,
    /// OpenSSH authorized_keys line (`ssh-ed25519 AAAA… comment`).
    pub public_key: String,
}

/// List / metadata item — public key optional; no one-time secret field.
#[derive(Debug, Clone)]
pub struct SshKeyListItem {
    pub id: String,
    pub title: String,
    pub fingerprint: String,
    pub key_type: String,
    pub public_key: Option<String>,
    pub last_used_at: Option<String>,
    pub last_used_ip: Option<String>,
    pub created_at: String,
}

} // verus!
