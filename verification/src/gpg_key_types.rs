//! OpenPGP public key types.

use vstd::prelude::*;

verus! {

/// `gpgKey.add` input — armored public key only (never a private key).
#[derive(Debug, Clone)]
pub struct AddGpgKeyRequest {
    /// Required title/note.
    pub title: String,
    /// ASCII-armored OpenPGP public key block.
    pub armored_public_key: String,
}

/// List / metadata item for a registered GPG public key.
#[derive(Debug, Clone)]
pub struct GpgKeyListItem {
    pub id: String,
    pub title: String,
    pub fingerprint: String,
    pub key_id: String,
    /// Email addresses parsed from key UIDs.
    pub uid_emails: Vec<String>,
    pub armored_public_key: Option<String>,
    pub created_at: String,
}

/// `gpgKey.revoke` input.
#[derive(Debug, Clone)]
pub struct RevokeGpgKeyRequest {
    pub id: String,
}

} // verus!
