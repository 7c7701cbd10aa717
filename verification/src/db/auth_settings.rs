//! Singleton instance authentication settings row.

use vstd::prelude::*;

verus! {

#[derive(Debug, Clone)]
pub struct AuthSettingsRow {
    pub provider_mode: String,
    pub email_provider: String,
    pub from_address: Option<String>,
    pub oidc_issuer: Option<String>,
    pub oidc_client_id: Option<String>,
    pub workos_client_id: Option<String>,
    pub allow_signup: bool,
    /// Instance default visibility for new repos; defaults to `public`.
    pub default_visibility: String,
    pub updated_at: String,
}

} // verus!
