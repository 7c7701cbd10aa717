use octanest::auth_types::{is_reserved_username, validate_username};
use octanest::crate_name;
use octanest::issue_types::{IssueLinkKind, IssueState, ReactionContent};
use octanest::pat_types::{PatKind, CLASSIC_PAT_PREFIX, FINE_GRAINED_PAT_PREFIX};
use octanest::pull_types::{MergeMethod, PullReviewState, PullState};
use octanest::repo_types::validate_repo_name;

#[test]
fn validate_username_accepts_short_ok() {
    assert!(validate_username("ab").is_ok());
}

#[test]
fn validate_username_rejects_leading_hyphen() {
    assert!(validate_username("-ab").is_err());
}

#[test]
fn validate_username_rejects_trailing_hyphen() {
    assert!(validate_username("ab-").is_err());
}

#[test]
fn validate_username_rejects_reserved() {
    let err = validate_username("admin").unwrap_err();
    assert!(err.contains("reserved"));
}

#[test]
fn validate_username_rejects_too_long() {
    let long = "a".repeat(40);
    assert!(validate_username(&long).is_err());
}

#[test]
fn issue_state_roundtrip() {
    assert_eq!(IssueState::parse("open").unwrap(), IssueState::Open);
    assert_eq!(IssueState::Closed.as_str(), "closed");
}

#[test]
fn reaction_content_github_eight() {
    assert_eq!(ReactionContent::parse("+1").unwrap().as_str(), "+1");
    assert_eq!(ReactionContent::parse("eyes").unwrap().as_str(), "eyes");
    assert!(ReactionContent::parse("thumbs").is_err());
}

#[test]
fn link_kind_pr_stub() {
    assert_eq!(
        IssueLinkKind::parse("pr_stub").unwrap(),
        IssueLinkKind::PrStub
    );
}

#[test]
fn name() {
    assert_eq!(crate_name(), "octanest-core");
}

#[test]
fn prefixes_are_octanest_brand_not_ona() {
    assert_eq!(CLASSIC_PAT_PREFIX, "octanest_pat_");
    assert_eq!(FINE_GRAINED_PAT_PREFIX, "octanest_fg_");
    assert_eq!(PatKind::Classic.token_prefix(), "octanest_pat_");
    assert_eq!(PatKind::FineGrained.token_prefix(), "octanest_fg_");
    assert!(!CLASSIC_PAT_PREFIX.starts_with("ona_"));
    assert!(!FINE_GRAINED_PAT_PREFIX.starts_with("ona_"));
    assert!(!CLASSIC_PAT_PREFIX.contains("github"));
    assert!(!CLASSIC_PAT_PREFIX.starts_with("gh"));
}

#[test]
fn pull_state_roundtrip() {
    assert_eq!(PullState::parse("merged").unwrap(), PullState::Merged);
    assert_eq!(MergeMethod::parse("squash").unwrap().as_str(), "squash");
    assert_eq!(
        PullReviewState::parse("changes_requested")
            .unwrap()
            .as_str(),
        "changes_requested"
    );
}

#[test]
fn validate_repo_name_accepts_my_app() {
    assert!(
        validate_repo_name("my_app").is_ok(),
        "underscore must be allowed in repo names"
    );
}

#[test]
fn validate_repo_name_accepts_dotted_name() {
    assert!(validate_repo_name("my.app").is_ok());
}

#[test]
fn validate_repo_name_rejects_empty() {
    assert!(validate_repo_name("").is_err());
    assert!(validate_repo_name("   ").is_err());
}

#[test]
fn validate_repo_name_rejects_reserved() {
    let err = validate_repo_name("login").unwrap_err();
    assert!(
        err.contains("reserved") || err.contains("not implemented"),
        "expected reserved rejection, got: {err}"
    );
    let _ = is_reserved_username("login");
}
