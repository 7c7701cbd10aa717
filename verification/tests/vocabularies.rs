use octanest::auth_types::{is_reserved_username, validate_username};
use octanest::issue_types::{IssueLinkKind, IssueState, ReactionContent};
use octanest::org_types::{CollaboratorPermission, MemberBasePermission, OrgRole, OwnerType};
use octanest::pat_types::{ClassicPatScope, ContentsPerm, FgRepoAccess, PatKind};
use octanest::pull_types::{MergeMethod, PullReviewState, PullState};
use octanest::repo_types::{validate_repo_name, RepoVisibility};

#[test]
fn every_value_round_trips_through_its_spelling() {
    for x in [IssueState::Open, IssueState::Closed] {
        assert_eq!(IssueState::parse(x.as_str()).unwrap(), x);
    }
    for x in [
        ReactionContent::PlusOne,
        ReactionContent::MinusOne,
        ReactionContent::Laugh,
        ReactionContent::Confused,
        ReactionContent::Heart,
        ReactionContent::Hooray,
        ReactionContent::Rocket,
        ReactionContent::Eyes,
    ] {
        assert_eq!(ReactionContent::parse(x.as_str()).unwrap(), x);
    }
    for x in [IssueLinkKind::Issue, IssueLinkKind::PrStub] {
        assert_eq!(IssueLinkKind::parse(x.as_str()).unwrap(), x);
    }
    for x in [PullState::Open, PullState::Closed, PullState::Merged] {
        assert_eq!(PullState::parse(x.as_str()).unwrap(), x);
    }
    for x in [MergeMethod::Merge, MergeMethod::Squash, MergeMethod::Rebase] {
        assert_eq!(MergeMethod::parse(x.as_str()).unwrap(), x);
    }
    for x in [
        PullReviewState::Approved,
        PullReviewState::ChangesRequested,
        PullReviewState::Commented,
        PullReviewState::Dismissed,
    ] {
        assert_eq!(PullReviewState::parse(x.as_str()).unwrap(), x);
    }
    for x in [OrgRole::Owner, OrgRole::Admin, OrgRole::Member] {
        assert_eq!(OrgRole::parse(x.as_str()).unwrap(), x);
    }
    for x in [
        MemberBasePermission::NoAccess,
        MemberBasePermission::Read,
        MemberBasePermission::Write,
    ] {
        assert_eq!(MemberBasePermission::parse(x.as_str()).unwrap(), x);
    }
    for x in [OwnerType::User, OwnerType::Org] {
        assert_eq!(OwnerType::parse(x.as_str()).unwrap(), x);
    }
    for x in [
        CollaboratorPermission::Read,
        CollaboratorPermission::Write,
        CollaboratorPermission::Admin,
    ] {
        assert_eq!(CollaboratorPermission::parse(x.as_str()).unwrap(), x);
    }
    for x in [PatKind::Classic, PatKind::FineGrained] {
        assert_eq!(PatKind::parse(x.as_str()).unwrap(), x);
    }
    assert_eq!(ClassicPatScope::parse(ClassicPatScope::Repo.as_str()).unwrap(), ClassicPatScope::Repo);
    for x in [FgRepoAccess::Selected, FgRepoAccess::All] {
        assert_eq!(FgRepoAccess::parse(x.as_str()).unwrap(), x);
    }
    for x in [ContentsPerm::Read, ContentsPerm::Write] {
        assert_eq!(ContentsPerm::parse(x.as_str()).unwrap(), x);
    }
    for x in [RepoVisibility::Public, RepoVisibility::Private] {
        assert_eq!(RepoVisibility::parse(x.as_str()).unwrap(), x);
    }
}

#[test]
fn spellings_are_exact() {
    assert_eq!(MemberBasePermission::NoAccess.as_str(), "none");
    assert_eq!(PullReviewState::ChangesRequested.as_str(), "changes_requested");
    assert_eq!(PatKind::FineGrained.as_str(), "fine_grained");
    assert_eq!(ReactionContent::MinusOne.as_str(), "-1");
    assert_eq!(RepoVisibility::Private.as_str(), "private");
}

#[test]
fn parse_ignores_surrounding_whitespace_only() {
    assert_eq!(PullState::parse("  merged\n").unwrap(), PullState::Merged);
    assert_eq!(OrgRole::parse("\towner ").unwrap(), OrgRole::Owner);
    assert_eq!(IssueState::parse("\u{3000}open\u{a0}").unwrap(), IssueState::Open);
    assert!(PullState::parse("Merged").is_err());
    assert!(PullState::parse("mer ged").is_err());
}

#[test]
fn parse_errors_name_the_trimmed_input() {
    assert_eq!(IssueState::parse(" shut ").unwrap_err(), "invalid issue state: shut");
    assert_eq!(ReactionContent::parse("thumbs").unwrap_err(), "invalid reaction content: thumbs");
    assert_eq!(IssueLinkKind::parse("x").unwrap_err(), "invalid issue link kind: x");
    assert_eq!(PullState::parse("draft").unwrap_err(), "invalid pull state: draft");
    assert_eq!(MergeMethod::parse("ff").unwrap_err(), "invalid merge method: ff");
    assert_eq!(PullReviewState::parse("ok").unwrap_err(), "invalid review state: ok");
    assert_eq!(OrgRole::parse("guest").unwrap_err(), "invalid org role: guest");
    assert_eq!(
        MemberBasePermission::parse("admin").unwrap_err(),
        "invalid member_base_permission: admin"
    );
    assert_eq!(OwnerType::parse("team").unwrap_err(), "invalid owner_type: team");
    assert_eq!(
        CollaboratorPermission::parse("owner").unwrap_err(),
        "invalid collaborator permission: owner"
    );
    assert_eq!(PatKind::parse("legacy").unwrap_err(), "invalid pat kind: legacy");
    assert_eq!(ClassicPatScope::parse("gist").unwrap_err(), "invalid classic scope: gist");
    assert_eq!(FgRepoAccess::parse("none").unwrap_err(), "invalid repo_access: none");
    assert_eq!(ContentsPerm::parse("admin").unwrap_err(), "invalid contents_perm: admin");
    assert_eq!(RepoVisibility::parse("internal").unwrap_err(), "invalid visibility: internal");
    assert_eq!(RepoVisibility::parse("").unwrap_err(), "invalid visibility: ");
}

#[test]
fn member_base_permission_defaults_to_none() {
    assert_eq!(MemberBasePermission::default(), MemberBasePermission::NoAccess);
    assert_eq!(MemberBasePermission::default().as_str(), "none");
}

#[test]
fn username_errors_follow_rule_order() {
    assert_eq!(validate_username("").unwrap_err(), "username must be 1–39 characters");
    assert_eq!(validate_username("   ").unwrap_err(), "username must be 1–39 characters");
    assert_eq!(
        validate_username(&"a".repeat(40)).unwrap_err(),
        "username must be 1–39 characters"
    );
    assert!(validate_username(&"a".repeat(39)).is_ok());
    // 20 characters of two bytes each: 40 bytes.
    assert_eq!(
        validate_username(&"é".repeat(20)).unwrap_err(),
        "username must be 1–39 characters"
    );
    assert_eq!(
        validate_username("é").unwrap_err(),
        "username must be alphanumeric or hyphen"
    );
    assert_eq!(
        validate_username("-a").unwrap_err(),
        "username cannot start or end with a hyphen"
    );
    assert_eq!(
        validate_username("a_b").unwrap_err(),
        "username must be alphanumeric or hyphen"
    );
    assert_eq!(validate_username("Admin").unwrap_err(), "username is reserved");
    assert!(validate_username("  mona-lisa  ").is_ok());
    assert!(validate_username("a-b-c9").is_ok());
}

#[test]
fn reserved_names_ignore_case() {
    assert!(is_reserved_username("admin"));
    assert!(is_reserved_username("ADMIN"));
    assert!(is_reserved_username("FavIcon"));
    assert!(!is_reserved_username("administrator"));
    assert!(!is_reserved_username(" admin"));
}

#[test]
fn repo_name_errors() {
    assert_eq!(validate_repo_name("").unwrap_err(), "repository name is required");
    assert_eq!(
        validate_repo_name("my app").unwrap_err(),
        "repository name may only contain letters, digits, hyphens, underscores and periods"
    );
    assert_eq!(validate_repo_name("LOGIN").unwrap_err(), "repository name is reserved");
    assert!(validate_repo_name(" my-app.rs_2 ").is_ok());
}
