//! The Transport Client's construction and addresses, the status rendering,
//! and the stored-configuration boundary mapping.

use mosaic_github::client::{content_url, graphql_url, languages_url, user_events_url};
use mosaic_github::config::{classify_config_lookup, ConfigLookup};
use mosaic_github::error::AppError;
use mosaic_github::text::raw_error_message;
use mosaic_github::GitHubClient;

#[test]
fn construction_binds_the_credential_into_the_header() {
    let c = GitHubClient::new("abc123").expect("a plain credential is valid");
    assert_eq!(c.auth_header, "token abc123");
}

#[test]
fn construction_fails_only_on_an_unencodable_credential() {
    match GitHubClient::new("line\nbreak") {
        Err(AppError::InvalidCredential) => {}
        other => panic!("expected an invalid-credential failure, got {:?}", other),
    }
    match GitHubClient::new("del\u{7f}char") {
        Err(AppError::InvalidCredential) => {}
        other => panic!("expected an invalid-credential failure, got {:?}", other),
    }
    assert!(GitHubClient::new("tab\tis fine").is_ok());
}

#[test]
fn urls_interpolate_without_escaping() {
    assert_eq!(
        user_events_url("octocat"),
        "https://api.github.com/users/octocat/events?per_page=100&page=1"
    );
    assert_eq!(
        languages_url("octocat", "hello"),
        "https://api.github.com/repos/octocat/hello/languages"
    );
    assert_eq!(
        content_url("octocat", "hello", "docs/readme.md"),
        "https://api.github.com/repos/octocat/hello/contents/docs/readme.md"
    );
    assert_eq!(graphql_url(), "https://api.github.com/graphql");
}

#[test]
fn raw_error_message_renders_the_status_in_decimal() {
    assert_eq!(
        raw_error_message(404, "x"),
        "GitHub API error: status = 404, message = x"
    );
    assert_eq!(
        raw_error_message(0, ""),
        "GitHub API error: status = 0, message = "
    );
    assert_eq!(
        raw_error_message(65535, "max"),
        "GitHub API error: status = 65535, message = max"
    );
}

#[test]
fn config_lookup_outcomes_map_onto_the_taxonomy() {
    assert_eq!(
        classify_config_lookup(ConfigLookup::Row("{\"a\":1}".to_string())),
        Ok("{\"a\":1}".to_string())
    );
    assert_eq!(
        classify_config_lookup(ConfigLookup::RowNotFound),
        Err(AppError::NotFound)
    );
    assert_eq!(
        classify_config_lookup(ConfigLookup::Failure("pool closed".to_string())),
        Err(AppError::StorageError("pool closed".to_string()))
    );
}

#[test]
fn transport_failures_stay_a_distinct_kind() {
    let e = AppError::TransportError("connection refused".to_string());
    assert!(matches!(e, AppError::TransportError(_)));
    assert_ne!(e, AppError::NotFound);
}
