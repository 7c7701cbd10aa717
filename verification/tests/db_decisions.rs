use octanest::db::issue_labels::check_label_scope;
use octanest::db::issues::{list_window, IssueListWindow};
use octanest::db::pulls::{
    list_window as pull_list_window, normalize_pull_search_state, pull_like_pattern, search_query,
    PullSearchFilters,
};
use octanest::db::redirects::{redirect_key, sqlite_timestamp};
use octanest::db::stars::explore_like_pattern;
use octanest::db::templates::{merge_pack_update, InstanceTemplatePackRow};
use octanest::db::webhooks::{
    active_for_event, delivery_list_limit, hook_receives, merge_update, WebhookRow,
};
use octanest::db::{ping_outcome, Database, Dialect};
use octanest::issue_types::IssueState;
use octanest::migrate_cli::{parse_migrate_args, MigrateOptions};

fn hook(id: &str, active: bool, events: &str) -> WebhookRow {
    WebhookRow {
        id: id.into(),
        repository_id: "r1".into(),
        url: "https://example.com/hook".into(),
        secret: "s".into(),
        active,
        events: events.into(),
        name: "n".into(),
        created_by: "u1".into(),
        created_at: "2026-01-01T00:00:00Z".into(),
        updated_at: "2026-01-01T00:00:00Z".into(),
    }
}

#[test]
fn skipped_database_has_no_pool() {
    let db: Database<u32> = Database::skipped();
    assert!(db.is_skipped());
    assert_eq!(db.dialect(), None);
    assert_eq!(db.require_pool().unwrap_err(), "database not configured");
}

#[test]
fn connected_database_hands_out_its_pool() {
    let db = Database::with_pool(7u32, Dialect::Sqlite);
    assert!(!db.is_skipped());
    assert_eq!(db.dialect(), Some(Dialect::Sqlite));
    assert_eq!(*db.require_pool().unwrap(), 7);
}

#[test]
fn issue_list_window_defaults_and_clamps() {
    assert_eq!(
        list_window("", -5, 0).unwrap(),
        IssueListWindow { state: Some(IssueState::Open), offset: 0, limit: 30 }
    );
    assert_eq!(
        list_window(" closed ", 10, 500).unwrap(),
        IssueListWindow { state: Some(IssueState::Closed), offset: 10, limit: 100 }
    );
    assert_eq!(
        list_window("all", 3, 7).unwrap(),
        IssueListWindow { state: None, offset: 3, limit: 7 }
    );
    assert_eq!(
        list_window(" merged ", 0, 10).unwrap_err(),
        "invalid issue state filter: merged"
    );
}

#[test]
fn pull_list_window_filters_all_and_clamps() {
    assert_eq!(pull_list_window(Some("all"), 0), (None, 1));
    assert_eq!(pull_list_window(Some("open"), 50), (Some("open"), 50));
    assert_eq!(pull_list_window(None, 1000), (None, 100));
    assert_eq!(pull_list_window(Some(" all"), 5), (Some(" all"), 5));
}

#[test]
fn pull_search_pattern_and_state() {
    assert_eq!(pull_like_pattern("fix"), "%fix%");
    assert_eq!(pull_like_pattern(""), "%%");
    assert_eq!(normalize_pull_search_state(" open "), Some("open"));
    assert_eq!(normalize_pull_search_state("closed"), Some("closed"));
    assert_eq!(normalize_pull_search_state("merged"), None);
    assert_eq!(normalize_pull_search_state(""), None);
    assert_eq!(normalize_pull_search_state("all"), None);
}

#[test]
fn pull_search_query_normalizes_filters() {
    let f = PullSearchFilters {
        state: "closed",
        author_id: Some(""),
        q: Some("  crash  "),
        offset: 20,
        limit: 0,
    };
    let q = search_query(&f);
    assert_eq!(q.state, Some("closed"));
    assert_eq!(q.author_id, None);
    assert_eq!(q.pattern.as_deref(), Some("%crash%"));
    assert_eq!(q.offset, 20);
    assert_eq!(q.limit, 1);

    let f = PullSearchFilters { state: "", author_id: Some("u7"), q: Some("   "), offset: 0, limit: 250 };
    let q = search_query(&f);
    assert_eq!(q.state, None);
    assert_eq!(q.author_id, Some("u7"));
    assert_eq!(q.pattern, None);
    assert_eq!(q.limit, 100);
}

#[test]
fn webhooks_receive_named_or_wildcard_events_only_when_active() {
    assert!(hook_receives(&hook("a", true, "[\"issues\",\"push\"]"), "push"));
    assert!(hook_receives(&hook("a", true, "[\"*\"]"), "pull_request"));
    assert!(!hook_receives(&hook("a", true, "[\"issues\"]"), "issue"));
    assert!(!hook_receives(&hook("a", false, "[\"push\"]"), "push"));
}

#[test]
fn active_for_event_keeps_order_and_skips_inactive() {
    let hooks = vec![
        hook("a", true, "[\"push\"]"),
        hook("b", false, "[\"push\"]"),
        hook("c", true, "[\"issues\"]"),
        hook("d", true, "[\"*\"]"),
    ];
    let ids: Vec<String> = active_for_event(hooks, "push").into_iter().map(|h| h.id).collect();
    assert_eq!(ids, vec!["a".to_string(), "d".to_string()]);
}

#[test]
fn webhook_update_keeps_omitted_fields() {
    let cur = hook("a", true, "[\"push\"]");
    let u = merge_update(&cur, Some("https://example.com/new"), None, Some(false), None, None);
    assert_eq!(u.url, "https://example.com/new");
    assert_eq!(u.secret, "s");
    assert!(!u.active);
    assert_eq!(u.events_json, "[\"push\"]");
    assert_eq!(u.name, "n");
    let same = merge_update(&cur, None, None, None, None, None);
    assert_eq!(same.url, cur.url);
    assert!(same.active);
}

#[test]
fn template_pack_update_keeps_omitted_fields() {
    let cur = InstanceTemplatePackRow {
        id: "p".into(),
        slug: "rust".into(),
        label: "Rust".into(),
        group: "lang".into(),
        description: "d".into(),
        default_gitignore: Some("target/".into()),
        enabled: true,
        byte_size: 10,
        content_digest: "x".into(),
        uploaded_by_user_id: "u".into(),
        created_at: "t".into(),
        updated_at: "t".into(),
    };
    let u = merge_pack_update(&cur, Some("Rust 2"), None, None, None);
    assert_eq!(u.label, "Rust 2");
    assert_eq!(u.group, "lang");
    assert_eq!(u.default_gitignore, Some("target/"));
    let cleared = merge_pack_update(&cur, None, None, None, Some(None));
    assert_eq!(cleared.default_gitignore, None);
}

#[test]
fn label_scope_requires_exactly_one_owner() {
    assert!(check_label_scope(Some("o"), None).is_ok());
    assert!(check_label_scope(None, Some("r")).is_ok());
    assert_eq!(
        check_label_scope(Some("o"), Some("r")).unwrap_err(),
        "label scope requires exactly one of org_id or repo_id"
    );
    assert!(check_label_scope(None, None).is_err());
}

#[test]
fn redirect_keys_and_sqlite_timestamps() {
    assert_eq!(redirect_key("MyOrg", "Repo.RS"), ("myorg".to_string(), "repo.rs".to_string()));
    assert_eq!(redirect_key("ÄB", "x"), ("Äb".to_string(), "x".to_string()));
    assert_eq!(sqlite_timestamp("2026-01-01T00:00:00Z"), "2026-01-01 00:00:00");
    assert_eq!(sqlite_timestamp("2026-01-01T00:00:00ZZ"), "2026-01-01 00:00:00");
    assert_eq!(sqlite_timestamp("2026-01-01 00:00:00"), "2026-01-01 00:00:00");
}

#[test]
fn explore_pattern_escapes_wildcards() {
    assert_eq!(explore_like_pattern("50%_off"), "%50\\%\\_off%");
    assert_eq!(explore_like_pattern("plain"), "%plain%");
}

#[test]
fn migrate_arguments() {
    let args = |v: &[&str]| v.iter().map(|s| s.to_string()).collect::<Vec<String>>();
    assert_eq!(
        parse_migrate_args(&args(&[])).unwrap(),
        MigrateOptions { assert_empty: false, force_empty: false }
    );
    let o = parse_migrate_args(&args(&["--assert-empty"])).unwrap();
    assert!(o.checks_empty());
    let o = parse_migrate_args(&args(&["--assert-empty", "--force-empty"])).unwrap();
    assert!(!o.checks_empty());
    assert_eq!(
        parse_migrate_args(&args(&["--assert-empty", "--bogus", "--nope"])).unwrap_err(),
        "usage: migrate [--assert-empty] [--force-empty]: unknown flag --bogus"
    );
}

#[test]
fn ping_outcomes() {
    assert_eq!(ping_outcome(None), "skipped");
    assert_eq!(ping_outcome(Some(true)), "ok");
    assert_eq!(ping_outcome(Some(false)), "error");
}

#[test]
fn delivery_listing_limit_is_held_to_one_hundred() {
    assert_eq!(delivery_list_limit(-5), 1);
    assert_eq!(delivery_list_limit(0), 1);
    assert_eq!(delivery_list_limit(1), 1);
    assert_eq!(delivery_list_limit(40), 40);
    assert_eq!(delivery_list_limit(100), 100);
    assert_eq!(delivery_list_limit(101), 100);
    assert_eq!(delivery_list_limit(i64::MAX), 100);
}

#[test]
fn database_dialect_present_exactly_with_pool() {
    let none: Database<u8> = Database::skipped();
    assert!(none.is_skipped());
    assert_eq!(none.dialect(), None);
    assert_eq!(none.clone().dialect(), None);
    let some = Database::with_pool(7u8, Dialect::Sqlite);
    assert!(!some.is_skipped());
    assert_eq!(some.dialect(), Some(Dialect::Sqlite));
    let copy = some.clone();
    assert_eq!(copy.dialect(), Some(Dialect::Sqlite));
    assert_eq!(copy.require_pool(), Ok(&7u8));
}
