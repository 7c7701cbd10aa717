//! Organization domain types.

use vstd::prelude::*;
use crate::text::{chars_eq_str, chars_of, concat_str_chars, lemma_trim_plain, trim, trim_chars};

verus! {

/// Organization membership role.
#[derive(Debug, Clone, Copy, PartialEq, Eq, Structural)]
pub enum OrgRole {
    Owner,
    Admin,
    Member,
}

impl OrgRole {
    /// The canonical spelling of the value.
    pub open spec fn spec_as_str(self) -> Seq<char> {
        match self {
            OrgRole::Owner => "owner"@,
            OrgRole::Admin => "admin"@,
            OrgRole::Member => "member"@,
        }
    }

    /// The value a trimmed spelling names, if any.
    pub open spec fn from_text(t: Seq<char>) -> Option<OrgRole> {
        if t == "owner"@ {
            Some(OrgRole::Owner)
        } else if t == "admin"@ {
            Some(OrgRole::Admin)
        } else if t == "member"@ {
            Some(OrgRole::Member)
        } else {
            None
        }
    }

    pub fn as_str(self) -> (r: &'static str)
        ensures
            r@ == self.spec_as_str(),
    {
        match self {
            OrgRole::Owner => "owner",
            OrgRole::Admin => "admin",
            OrgRole::Member => "member",
        }
    }

    /// Parses a spelling, ignoring surrounding whitespace.
    pub fn parse(s: &str) -> (r: Result<OrgRole, String>)
        ensures
            match r {
                Ok(x) => OrgRole::from_text(trim(s@)) == Some(x),
                Err(e) => OrgRole::from_text(trim(s@)) is None && e@ == "invalid org role: "@ + trim(s@),
            },
    {
        let t = trim_chars(&chars_of(s));
        if chars_eq_str(&t, "owner") {
            Ok(OrgRole::Owner)
        } else if chars_eq_str(&t, "admin") {
            Ok(OrgRole::Admin)
        } else if chars_eq_str(&t, "member") {
            Ok(OrgRole::Member)
        } else {
            Err(concat_str_chars("invalid org role: ", &t))
        }
    }
}

/// Each value is spelled by its own name (`owner`, `admin`, `member`), and each of those spellings reads
/// back as that value.
pub proof fn lemma_org_role_spellings()
    ensures
        OrgRole::Owner.spec_as_str() == "owner"@,
        OrgRole::Admin.spec_as_str() == "admin"@,
        OrgRole::Member.spec_as_str() == "member"@,
        OrgRole::from_text("owner"@) == Some(OrgRole::Owner),
        OrgRole::from_text("admin"@) == Some(OrgRole::Admin),
        OrgRole::from_text("member"@) == Some(OrgRole::Member),
{
    reveal_strlit("owner");
    reveal_strlit("admin");
    reveal_strlit("member");
    lemma_trim_plain(OrgRole::Owner.spec_as_str());
    lemma_org_role_round_trip(OrgRole::Owner);
    lemma_trim_plain(OrgRole::Admin.spec_as_str());
    lemma_org_role_round_trip(OrgRole::Admin);
    lemma_trim_plain(OrgRole::Member.spec_as_str());
    lemma_org_role_round_trip(OrgRole::Member);
}

/// Parsing the canonical spelling of any value gives that value back.
pub proof fn lemma_org_role_round_trip(x: OrgRole)
    ensures
        OrgRole::from_text(trim(x.spec_as_str())) == Some(x),
{
    reveal_strlit("owner");
    reveal_strlit("admin");
    reveal_strlit("member");
    lemma_trim_plain(x.spec_as_str());
}

/// Default permission of organization members on the organization's private repositories.
#[derive(Debug, Clone, Copy, PartialEq, Eq, Structural)]
pub enum MemberBasePermission {
    /// No access beyond public repositories (spelled `none`).
    NoAccess,
    Read,
    Write,
}

impl MemberBasePermission {
    /// The canonical spelling of the value.
    pub open spec fn spec_as_str(self) -> Seq<char> {
        match self {
            MemberBasePermission::NoAccess => "none"@,
            MemberBasePermission::Read => "read"@,
            MemberBasePermission::Write => "write"@,
        }
    }

    /// The value a trimmed spelling names, if any.
    pub open spec fn from_text(t: Seq<char>) -> Option<MemberBasePermission> {
        if t == "none"@ {
            Some(MemberBasePermission::NoAccess)
        } else if t == "read"@ {
            Some(MemberBasePermission::Read)
        } else if t == "write"@ {
            Some(MemberBasePermission::Write)
        } else {
            None
        }
    }

    pub fn as_str(self) -> (r: &'static str)
        ensures
            r@ == self.spec_as_str(),
    {
        match self {
            MemberBasePermission::NoAccess => "none",
            MemberBasePermission::Read => "read",
            MemberBasePermission::Write => "write",
        }
    }

    /// Parses a spelling, ignoring surrounding whitespace.
    pub fn parse(s: &str) -> (r: Result<MemberBasePermission, String>)
        ensures
            match r {
                Ok(x) => MemberBasePermission::from_text(trim(s@)) == Some(x),
                Err(e) => MemberBasePermission::from_text(trim(s@)) is None && e@ == "invalid member_base_permission: "@ + trim(s@),
            },
    {
        let t = trim_chars(&chars_of(s));
        if chars_eq_str(&t, "none") {
            Ok(MemberBasePermission::NoAccess)
        } else if chars_eq_str(&t, "read") {
            Ok(MemberBasePermission::Read)
        } else if chars_eq_str(&t, "write") {
            Ok(MemberBasePermission::Write)
        } else {
            Err(concat_str_chars("invalid member_base_permission: ", &t))
        }
    }
}

/// Each value is spelled by its own name (`none`, `read`, `write`), and each of those spellings reads
/// back as that value.
pub proof fn lemma_member_base_permission_spellings()
    ensures
        MemberBasePermission::NoAccess.spec_as_str() == "none"@,
        MemberBasePermission::Read.spec_as_str() == "read"@,
        MemberBasePermission::Write.spec_as_str() == "write"@,
        MemberBasePermission::from_text("none"@) == Some(MemberBasePermission::NoAccess),
        MemberBasePermission::from_text("read"@) == Some(MemberBasePermission::Read),
        MemberBasePermission::from_text("write"@) == Some(MemberBasePermission::Write),
{
    reveal_strlit("none");
    reveal_strlit("read");
    reveal_strlit("write");
    lemma_trim_plain(MemberBasePermission::NoAccess.spec_as_str());
    lemma_member_base_permission_round_trip(MemberBasePermission::NoAccess);
    lemma_trim_plain(MemberBasePermission::Read.spec_as_str());
    lemma_member_base_permission_round_trip(MemberBasePermission::Read);
    lemma_trim_plain(MemberBasePermission::Write.spec_as_str());
    lemma_member_base_permission_round_trip(MemberBasePermission::Write);
}

/// Parsing the canonical spelling of any value gives that value back.
pub proof fn lemma_member_base_permission_round_trip(x: MemberBasePermission)
    ensures
        MemberBasePermission::from_text(trim(x.spec_as_str())) == Some(x),
{
    reveal_strlit("none");
    reveal_strlit("read");
    reveal_strlit("write");
    lemma_trim_plain(x.spec_as_str());
}

/// Kind of a repository owner: a user or an organization.
#[derive(Debug, Clone, Copy, PartialEq, Eq, Structural)]
pub enum OwnerType {
    User,
    Org,
}

impl OwnerType {
    /// The canonical spelling of the value.
    pub open spec fn spec_as_str(self) -> Seq<char> {
        match self {
            OwnerType::User => "user"@,
            OwnerType::Org => "org"@,
        }
    }

    /// The value a trimmed spelling names, if any.
    pub open spec fn from_text(t: Seq<char>) -> Option<OwnerType> {
        if t == "user"@ {
            Some(OwnerType::User)
        } else if t == "org"@ {
            Some(OwnerType::Org)
        } else {
            None
        }
    }

    pub fn as_str(self) -> (r: &'static str)
        ensures
            r@ == self.spec_as_str(),
    {
        match self {
            OwnerType::User => "user",
            OwnerType::Org => "org",
        }
    }

    /// Parses a spelling, ignoring surrounding whitespace.
    pub fn parse(s: &str) -> (r: Result<OwnerType, String>)
        ensures
            match r {
                Ok(x) => OwnerType::from_text(trim(s@)) == Some(x),
                Err(e) => OwnerType::from_text(trim(s@)) is None && e@ == "invalid owner_type: "@ + trim(s@),
            },
    {
        let t = trim_chars(&chars_of(s));
        if chars_eq_str(&t, "user") {
            Ok(OwnerType::User)
        } else if chars_eq_str(&t, "org") {
            Ok(OwnerType::Org)
        } else {
            Err(concat_str_chars("invalid owner_type: ", &t))
        }
    }
}

/// Each value is spelled by its own name (`user`, `org`), and each of those spellings reads
/// back as that value.
pub proof fn lemma_owner_type_spellings()
    ensures
        OwnerType::User.spec_as_str() == "user"@,
        OwnerType::Org.spec_as_str() == "org"@,
        OwnerType::from_text("user"@) == Some(OwnerType::User),
        OwnerType::from_text("org"@) == Some(OwnerType::Org),
{
    reveal_strlit("user");
    reveal_strlit("org");
    lemma_trim_plain(OwnerType::User.spec_as_str());
    lemma_owner_type_round_trip(OwnerType::User);
    lemma_trim_plain(OwnerType::Org.spec_as_str());
    lemma_owner_type_round_trip(OwnerType::Org);
}

/// Parsing the canonical spelling of any value gives that value back.
pub proof fn lemma_owner_type_round_trip(x: OwnerType)
    ensures
        OwnerType::from_text(trim(x.spec_as_str())) == Some(x),
{
    reveal_strlit("user");
    reveal_strlit("org");
    lemma_trim_plain(x.spec_as_str());
}

/// Per-repository collaborator permission ladder.
#[derive(Debug, Clone, Copy, PartialEq, Eq, Structural)]
pub enum CollaboratorPermission {
    Read,
    Write,
    Admin,
}

impl CollaboratorPermission {
    /// The canonical spelling of the value.
    pub open spec fn spec_as_str(self) -> Seq<char> {
        match self {
            CollaboratorPermission::Read => "read"@,
            CollaboratorPermission::Write => "write"@,
            CollaboratorPermission::Admin => "admin"@,
        }
    }

    /// The value a trimmed spelling names, if any.
    pub open spec fn from_text(t: Seq<char>) -> Option<CollaboratorPermission> {
        if t == "read"@ {
            Some(CollaboratorPermission::Read)
        } else if t == "write"@ {
            Some(CollaboratorPermission::Write)
        } else if t == "admin"@ {
            Some(CollaboratorPermission::Admin)
        } else {
            None
        }
    }

    pub fn as_str(self) -> (r: &'static str)
        ensures
            r@ == self.spec_as_str(),
    {
        match self {
            CollaboratorPermission::Read => "read",
            CollaboratorPermission::Write => "write",
            CollaboratorPermission::Admin => "admin",
        }
    }

    /// Parses a spelling, ignoring surrounding whitespace.
    pub fn parse(s: &str) -> (r: Result<CollaboratorPermission, String>)
        ensures
            match r {
                Ok(x) => CollaboratorPermission::from_text(trim(s@)) == Some(x),
                Err(e) => CollaboratorPermission::from_text(trim(s@)) is None && e@ == "invalid collaborator permission: "@ + trim(s@),
            },
    {
        let t = trim_chars(&chars_of(s));
        if chars_eq_str(&t, "read") {
            Ok(CollaboratorPermission::Read)
        } else if chars_eq_str(&t, "write") {
            Ok(CollaboratorPermission::Write)
        } else if chars_eq_str(&t, "admin") {
            Ok(CollaboratorPermission::Admin)
        } else {
            Err(concat_str_chars("invalid collaborator permission: ", &t))
        }
    }
}

/// Each value is spelled by its own name (`read`, `write`, `admin`), and each of those spellings reads
/// back as that value.
pub proof fn lemma_collaborator_permission_spellings()
    ensures
        CollaboratorPermission::Read.spec_as_str() == "read"@,
        CollaboratorPermission::Write.spec_as_str() == "write"@,
        CollaboratorPermission::Admin.spec_as_str() == "admin"@,
        CollaboratorPermission::from_text("read"@) == Some(CollaboratorPermission::Read),
        CollaboratorPermission::from_text("write"@) == Some(CollaboratorPermission::Write),
        CollaboratorPermission::from_text("admin"@) == Some(CollaboratorPermission::Admin),
{
    reveal_strlit("read");
    reveal_strlit("write");
    reveal_strlit("admin");
    lemma_trim_plain(CollaboratorPermission::Read.spec_as_str());
    lemma_collaborator_permission_round_trip(CollaboratorPermission::Read);
    lemma_trim_plain(CollaboratorPermission::Write.spec_as_str());
    lemma_collaborator_permission_round_trip(CollaboratorPermission::Write);
    lemma_trim_plain(CollaboratorPermission::Admin.spec_as_str());
    lemma_collaborator_permission_round_trip(CollaboratorPermission::Admin);
}

/// Parsing the canonical spelling of any value gives that value back.
pub proof fn lemma_collaborator_permission_round_trip(x: CollaboratorPermission)
    ensures
        CollaboratorPermission::from_text(trim(x.spec_as_str())) == Some(x),
{
    reveal_strlit("read");
    reveal_strlit("write");
    reveal_strlit("admin");
    lemma_trim_plain(x.spec_as_str());
}

impl Default for MemberBasePermission {
    /// Members get no access by default.
    fn default() -> (r: MemberBasePermission)
        ensures
            r == MemberBasePermission::NoAccess,
    {
        MemberBasePermission::NoAccess
    }
}

/// Public organization profile returned over RPC.
#[derive(Debug, Clone)]
pub struct OrgPublic {
    pub id: String,
    pub slug: String,
    pub display_name: String,
    pub member_base_permission: MemberBasePermission,
    pub created_at: String,
    pub updated_at: String,
}

/// `org.create` input — slug + optional display name.
#[derive(Debug, Clone)]
pub struct CreateOrgRequest {
    pub slug: String,
    pub display_name: Option<String>,
}

/// `org.get` / slug-scoped org RPCs.
#[derive(Debug, Clone)]
pub struct OrgSlugRequest {
    pub slug: String,
}

/// `org.updateSettings` — Admin+.
#[derive(Debug, Clone)]
pub struct OrgUpdateSettingsRequest {
    pub slug: String,
    pub member_base_permission: Option<MemberBasePermission>,
    pub display_name: Option<String>,
}

/// One org in `org.listMine` — includes caller's membership role.
#[derive(Debug, Clone)]
pub struct OrgMineEntry {
    pub id: String,
    pub slug: String,
    pub display_name: String,
    pub member_base_permission: MemberBasePermission,
    pub role: OrgRole,
    pub created_at: String,
    pub updated_at: String,
}

/// `org.listMine` response.
#[derive(Debug, Clone)]
pub struct OrgListMineResponse {
    pub orgs: Vec<OrgMineEntry>,
}

/// Public membership row — no email.
#[derive(Debug, Clone)]
pub struct OrgMemberPublic {
    pub user_id: String,
    pub username: String,
    pub role: OrgRole,
    pub created_at: String,
}

/// `org.members.list` response.
#[derive(Debug, Clone)]
pub struct OrgMembersListResponse {
    pub members: Vec<OrgMemberPublic>,
}

/// `org.members.add` — existing instance user by username.
#[derive(Debug, Clone)]
pub struct OrgMembersAddRequest {
    pub slug: String,
    pub username: String,
    pub role: OrgRole,
}

/// `org.members.updateRole`.
#[derive(Debug, Clone)]
pub struct OrgMembersUpdateRoleRequest {
    pub slug: String,
    pub user_id: String,
    pub role: OrgRole,
}

/// `org.members.remove`.
#[derive(Debug, Clone)]
pub struct OrgMembersRemoveRequest {
    pub slug: String,
    pub user_id: String,
}

/// Public pending invite — never includes token or token_hash.
#[derive(Debug, Clone)]
pub struct OrgInvitePublic {
    pub id: String,
    pub email: String,
    pub role: OrgRole,
    pub expires_at: String,
    pub invited_by: String,
    pub created_at: String,
}

/// `org.invites.list` response.
#[derive(Debug, Clone)]
pub struct OrgInvitesListResponse {
    pub invites: Vec<OrgInvitePublic>,
}

/// `org.invites.create`.
#[derive(Debug, Clone)]
pub struct OrgInvitesCreateRequest {
    pub slug: String,
    pub email: String,
    pub role: OrgRole,
}

/// `org.invites.revoke`.
#[derive(Debug, Clone)]
pub struct OrgInvitesRevokeRequest {
    pub slug: String,
    pub invite_id: String,
}

/// `org.invites.accept` — token from email link; username/password when provisioning.
#[derive(Debug, Clone)]
pub struct OrgInvitesAcceptRequest {
    pub token: String,
    pub username: Option<String>,
    pub password: Option<String>,
}

/// `org.invites.accept` response.
#[derive(Debug, Clone)]
pub struct OrgInvitesAcceptResponse {
    pub org: OrgPublic,
    pub member: OrgMemberPublic,
}

} // verus!
