//! Authentication types and username rules.

use vstd::prelude::*;
use crate::text::{
    ascii_lower, char_is_ascii_alnum, chars_eq_str, chars_of, is_ascii_alnum, lemma_ascii_lower_idempotent,
    lemma_utf8_len_at_least_chars, lower_chars, trim, trim_chars, utf8_len, utf8_len_exceeds,
};

verus! {

/// Authentication provider mode.
#[derive(Debug, Clone, Copy, PartialEq, Eq, Structural)]
pub enum ProviderMode {
    Local,
    Workos,
    Oidc,
}

/// Outbound email adapter kind.
#[derive(Debug, Clone, Copy, PartialEq, Eq, Structural)]
pub enum EmailProviderKind {
    Log,
    Smtp,
    Resend,
}

/// Public user profile returned over RPC (no password hash).
#[derive(Debug, Clone)]
pub struct UserPublic {
    pub id: String,
    pub email: String,
    pub username: String,
    pub display_name: String,
    pub bio: String,
    /// Public URL path (e.g. `/uploads/avatars/{id}.webp`), not a filesystem path.
    pub avatar_url: Option<String>,
    pub is_admin: bool,
    /// True when username needs completion (e.g. after SSO with placeholder handle).
    pub profile_incomplete: bool,
}

/// Local signup input.
#[derive(Debug, Clone)]
pub struct SignupRequest {
    pub email: String,
    pub username: String,
    pub password: String,
}

/// Local login input. `identifier` is email or username.
#[derive(Debug, Clone)]
pub struct LoginRequest {
    pub identifier: String,
    pub password: String,
    pub remember_me: bool,
}

/// Public provider config for `auth.provider_config`.
#[derive(Debug, Clone)]
pub struct ProviderConfigPublic {
    pub mode: ProviderMode,
}

/// Profile update fields. Bio max length enforced in API (160).
#[derive(Debug, Clone)]
pub struct UpdateProfileRequest {
    pub display_name: String,
    pub username: String,
    pub bio: String,
}

/// Instance auth settings for admin UI — secrets never returned; ENV badges only.
#[derive(Debug, Clone)]
pub struct AuthSettingsPublic {
    pub provider_mode: ProviderMode,
    pub email_provider: EmailProviderKind,
    pub from_address: Option<String>,
    /// Non-secret WorkOS client id (display); may also come from ENV when DB empty.
    pub workos_client_id: Option<String>,
    pub oidc_issuer: Option<String>,
    pub oidc_client_id: Option<String>,
    pub smtp_configured: bool,
    pub resend_configured: bool,
    pub workos_api_key_configured: bool,
    pub oidc_client_secret_configured: bool,
}

/// Admin update payload — non-secret fields only.
#[derive(Debug, Clone)]
pub struct UpdateAuthSettingsRequest {
    pub provider_mode: ProviderMode,
    pub email_provider: EmailProviderKind,
    pub from_address: Option<String>,
    pub oidc_issuer: Option<String>,
    pub oidc_client_id: Option<String>,
    pub workos_client_id: Option<String>,
}


/// Names that no user may take, compared in ASCII lowercase.
pub open spec fn reserved_names() -> Seq<Seq<char>> {
    seq![
        "admin"@, "api"@, "settings"@, "login"@, "signup"@, "logout"@, "status"@,
        "dashboard"@, "explore"@, "orgs"@, "org"@, "help"@, "support"@, "www"@, "root"@,
        "system"@, "null"@, "undefined"@, "octanest"@, "assets"@, "static"@, "uploads"@,
        "health"@, "rpc"@, "auth"@, "account"@, "profile"@, "robots"@, "favicon"@,
    ]
}

/// Each word on the reserved list is reserved: the route segments, the product's own name and
/// the well-known files.
pub proof fn lemma_reserved_words()
    ensures
        reserved_names().contains("admin"@),
        reserved_names().contains("api"@),
        reserved_names().contains("settings"@),
        reserved_names().contains("login"@),
        reserved_names().contains("signup"@),
        reserved_names().contains("logout"@),
        reserved_names().contains("status"@),
        reserved_names().contains("dashboard"@),
        reserved_names().contains("explore"@),
        reserved_names().contains("orgs"@),
        reserved_names().contains("org"@),
        reserved_names().contains("help"@),
        reserved_names().contains("support"@),
        reserved_names().contains("www"@),
        reserved_names().contains("root"@),
        reserved_names().contains("system"@),
        reserved_names().contains("null"@),
        reserved_names().contains("undefined"@),
        reserved_names().contains("octanest"@),
        reserved_names().contains("assets"@),
        reserved_names().contains("static"@),
        reserved_names().contains("uploads"@),
        reserved_names().contains("health"@),
        reserved_names().contains("rpc"@),
        reserved_names().contains("auth"@),
        reserved_names().contains("account"@),
        reserved_names().contains("profile"@),
        reserved_names().contains("robots"@),
        reserved_names().contains("favicon"@),
{
    assert(reserved_names()[0] == "admin"@);
    assert(reserved_names()[1] == "api"@);
    assert(reserved_names()[2] == "settings"@);
    assert(reserved_names()[3] == "login"@);
    assert(reserved_names()[4] == "signup"@);
    assert(reserved_names()[5] == "logout"@);
    assert(reserved_names()[6] == "status"@);
    assert(reserved_names()[7] == "dashboard"@);
    assert(reserved_names()[8] == "explore"@);
    assert(reserved_names()[9] == "orgs"@);
    assert(reserved_names()[10] == "org"@);
    assert(reserved_names()[11] == "help"@);
    assert(reserved_names()[12] == "support"@);
    assert(reserved_names()[13] == "www"@);
    assert(reserved_names()[14] == "root"@);
    assert(reserved_names()[15] == "system"@);
    assert(reserved_names()[16] == "null"@);
    assert(reserved_names()[17] == "undefined"@);
    assert(reserved_names()[18] == "octanest"@);
    assert(reserved_names()[19] == "assets"@);
    assert(reserved_names()[20] == "static"@);
    assert(reserved_names()[21] == "uploads"@);
    assert(reserved_names()[22] == "health"@);
    assert(reserved_names()[23] == "rpc"@);
    assert(reserved_names()[24] == "auth"@);
    assert(reserved_names()[25] == "account"@);
    assert(reserved_names()[26] == "profile"@);
    assert(reserved_names()[27] == "robots"@);
    assert(reserved_names()[28] == "favicon"@);
}

/// Whether `s` is a reserved name, ignoring ASCII case.
pub open spec fn is_reserved_name(s: Seq<char>) -> bool {
    reserved_names().contains(ascii_lower(s))
}

fn reserved_name_list() -> (v: Vec<&'static str>)
    ensures
        v@.len() == reserved_names().len(),
        forall|i: int| 0 <= i < v@.len() ==> #[trigger] v@[i]@ == reserved_names()[i],
{
    let v = vec![
        "admin", "api", "settings", "login", "signup", "logout", "status",
        "dashboard", "explore", "orgs", "org", "help", "support", "www", "root",
        "system", "null", "undefined", "octanest", "assets", "static", "uploads",
        "health", "rpc", "auth", "account", "profile", "robots", "favicon",
    ];
    assert(v@.len() == reserved_names().len());
    v
}

/// Whether the characters `v` spell a reserved name, ignoring ASCII case.
pub fn chars_are_reserved(v: &Vec<char>) -> (b: bool)
    ensures
        b == is_reserved_name(v@),
{
    let lower = lower_chars(v);
    let names = reserved_name_list();
    let mut j: usize = 0;
    while j < names.len()
        invariant
            lower@ == ascii_lower(v@),
            names@.len() == reserved_names().len(),
            forall|i: int| 0 <= i < names@.len() ==> #[trigger] names@[i]@ == reserved_names()[i],
            j <= names@.len(),
            forall|i: int| 0 <= i < j ==> reserved_names()[i] != lower@,
        decreases names.len() - j,
    {
        if chars_eq_str(&lower, names[j]) {
            assert(reserved_names()[j as int] == ascii_lower(v@));
            assert(reserved_names().contains(ascii_lower(v@)));
            return true;
        }
        j = j + 1;
    }
    false
}

/// Returns true if `u` matches a reserved username (case-insensitive).
pub fn is_reserved_username(u: &str) -> (b: bool)
    ensures
        b == is_reserved_name(u@),
{
    chars_are_reserved(&chars_of(u))
}

/// Reserved-name checks ignore ASCII case: a name is reserved exactly when its lowercase form is.
pub proof fn lemma_reserved_ignores_case(s: Seq<char>)
    ensures
        is_reserved_name(s) == is_reserved_name(ascii_lower(s)),
{
    lemma_ascii_lower_idempotent(s);
}

/// Character allowed in a username: ASCII letter, digit, or hyphen.
pub open spec fn is_username_char(c: char) -> bool {
    is_ascii_alnum(c) || c == '-'
}

/// The error `validate_username` reports for `raw`, or `None` when the name is acceptable:
/// after trimming, 1 to 39 bytes, no leading or trailing hyphen, only ASCII letters, digits
/// and hyphens, and not reserved. The first failing rule, in that order, decides the message.
pub open spec fn username_error(raw: Seq<char>) -> Option<Seq<char>> {
    let u = trim(raw);
    if u.len() == 0 || utf8_len(u) > 39 {
        Some("username must be 1–39 characters"@)
    } else if u[0] == '-' || u.last() == '-' {
        Some("username cannot start or end with a hyphen"@)
    } else if !(forall|i: int| 0 <= i < u.len() ==> #[trigger] is_username_char(u[i])) {
        Some("username must be alphanumeric or hyphen"@)
    } else if is_reserved_name(u) {
        Some("username is reserved"@)
    } else {
        None
    }
}

/// An accepted username is 1 to 39 characters long after trimming, neither starts nor ends
/// with a hyphen, and holds only ASCII letters, digits and hyphens; so a name with any other
/// character (a period, an underscore, a space inside) is refused.
pub proof fn lemma_username_rules(raw: Seq<char>)
    ensures
        username_error(raw) is None ==> 1 <= trim(raw).len() <= 39,
        username_error(raw) is None ==> trim(raw)[0] != '-' && trim(raw).last() != '-',
        username_error(raw) is None ==> forall|i: int| 0 <= i < trim(raw).len() ==> {
            let c = #[trigger] trim(raw)[i];
            ('0' <= c && c <= '9') || ('a' <= c && c <= 'z') || ('A' <= c && c <= 'Z') || c == '-'
        },
        forall|i: int| 0 <= i < trim(raw).len() && !('0' <= #[trigger] trim(raw)[i] <= '9')
            && !('a' <= trim(raw)[i] <= 'z') && !('A' <= trim(raw)[i] <= 'Z') && trim(raw)[i] != '-'
            ==> username_error(raw) is Some,
{
    let u = trim(raw);
    lemma_utf8_len_at_least_chars(u);
    if username_error(raw) is None {
        assert forall|i: int| 0 <= i < u.len() implies {
            let c = #[trigger] u[i];
            ('0' <= c && c <= '9') || ('a' <= c && c <= 'z') || ('A' <= c && c <= 'Z') || c == '-'
        } by {
            assert(is_username_char(u[i]));
        }
    }
    assert forall|i: int| 0 <= i < u.len() && !('0' <= #[trigger] u[i] <= '9') && !('a' <= u[i]
        <= 'z') && !('A' <= u[i] <= 'Z') && u[i] != '-' implies username_error(raw) is Some by {
        assert(!is_username_char(u[i]));
    }
}

/// Whether every character of `v` satisfies [`is_username_char`].
fn all_username_chars(v: &Vec<char>) -> (b: bool)
    ensures
        b == (forall|i: int| 0 <= i < v@.len() ==> #[trigger] is_username_char(v@[i])),
{
    let mut k: usize = 0;
    while k < v.len()
        invariant
            k <= v@.len(),
            forall|i: int| 0 <= i < k ==> #[trigger] is_username_char(v@[i]),
        decreases v.len() - k,
    {
        if !(char_is_ascii_alnum(v[k]) || v[k] == '-') {
            assert(!is_username_char(v@[k as int]));
            return false;
        }
        k = k + 1;
    }
    true
}

/// Username rules: 1–39 characters, ASCII letters, digits and hyphens,
/// no leading or trailing hyphen, not reserved. Surrounding whitespace is ignored.
pub fn validate_username(raw: &str) -> (r: Result<(), String>)
    ensures
        match r {
            Ok(_) => username_error(raw@) is None,
            Err(e) => username_error(raw@) == Some(e@),
        },
        r is Ok ==> 1 <= trim(raw@).len() <= 39,
        r is Ok ==> trim(raw@)[0] != '-' && trim(raw@).last() != '-',
        r is Ok ==> forall|i: int| 0 <= i < trim(raw@).len() ==> {
            let c = #[trigger] trim(raw@)[i];
            ('0' <= c && c <= '9') || ('a' <= c && c <= 'z') || ('A' <= c && c <= 'Z') || c == '-'
        },
{
    proof {
        lemma_username_rules(raw@);
    }
    let u = trim_chars(&chars_of(raw));
    if u.len() == 0 || utf8_len_exceeds(&u, 39) {
        return Err(String::from_str("username must be 1–39 characters"));
    }
    if u[0] == '-' || u[u.len() - 1] == '-' {
        return Err(String::from_str("username cannot start or end with a hyphen"));
    }
    if !all_username_chars(&u) {
        return Err(String::from_str("username must be alphanumeric or hyphen"));
    }
    if chars_are_reserved(&u) {
        return Err(String::from_str("username is reserved"));
    }
    Ok(())
}

} // verus!
