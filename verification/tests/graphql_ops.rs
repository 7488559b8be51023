//! The GraphQL operations' resolution order and request construction.

use mosaic_github::error::AppError;
use mosaic_github::graphql::{profile_from_response, repository_from_response};
use mosaic_github::{ProfileQuery, RepositoryQuery};

#[test]
fn profile_success_extracts_the_viewer() {
    let body = "{\"data\":{\"viewer\":{\"login\":\"octocat\",\"name\":\"Octo Cat\"}}}";
    let p = profile_from_response(200, body).expect("a viewer payload succeeds");
    assert_eq!(p.login, "octocat");
    assert_eq!(p.name, Some("Octo Cat".to_string()));
}

#[test]
fn profile_errors_list_is_kept_element_for_element() {
    let body = "{\"data\":null,\"errors\":[{\"message\":\"rate limited\"},{\"message\":\"again\"}]}";
    match profile_from_response(200, body) {
        Err(AppError::GitHubError(e)) => {
            assert_eq!(e.message, "Failed to fetch user profile");
            let errors = e.errors.expect("the errors list must be kept");
            assert_eq!(errors.len(), 2);
            assert_eq!(errors[0], "{\"message\":\"rate limited\"}");
            assert_eq!(errors[1], "{\"message\":\"again\"}");
        }
        other => panic!("expected an upstream-reported failure, got {:?}", other),
    }
}

#[test]
fn profile_http_failure_has_the_fixed_message() {
    match profile_from_response(502, "gateway broke") {
        Err(AppError::GitHubError(e)) => {
            assert_eq!(e.message, "Failed to fetch user profile");
            assert_eq!(e.errors, None);
            assert_eq!(e.documentation_url, None);
        }
        other => panic!("expected an upstream-reported failure, got {:?}", other),
    }
}

#[test]
fn profile_envelope_without_data_is_the_fixed_failure() {
    match profile_from_response(200, "{}") {
        Err(AppError::GitHubError(e)) => {
            assert_eq!(e.message, "Failed to fetch user profile");
            assert_eq!(e.errors, None);
        }
        other => panic!("expected an upstream-reported failure, got {:?}", other),
    }
}

#[test]
fn profile_unreadable_envelope_is_a_decode_failure() {
    match profile_from_response(200, "no envelope here") {
        Err(AppError::DecodeError(_)) => {}
        other => panic!("expected a decode failure, got {:?}", other),
    }
}

#[test]
fn repository_success_extracts_the_repository() {
    let body = "{\"data\":{\"repository\":{\"name\":\"verus\",\"description\":null,\"url\":\"https://example/r\"}}}";
    let r = repository_from_response(200, body).expect("a repository payload succeeds");
    assert_eq!(r.name, "verus");
    assert_eq!(r.description, None);
    assert_eq!(r.url, "https://example/r");
}

#[test]
fn null_repository_is_a_not_found_failure_not_a_crash() {
    let body = "{\"data\":{\"repository\":null}}";
    match repository_from_response(200, body) {
        Err(AppError::GitHubError(e)) => {
            assert_eq!(e.message, "Failed to fetch repository");
            assert_eq!(e.errors, None);
            assert_eq!(e.documentation_url, None);
        }
        other => panic!("expected a not-found-flavored failure, got {:?}", other),
    }
}

#[test]
fn repository_errors_branch_uses_its_own_message() {
    let body = "{\"errors\":[\"boom\"]}";
    match repository_from_response(200, body) {
        Err(AppError::GitHubError(e)) => {
            assert_eq!(e.message, "Failed to fetch repository");
            let errors = e.errors.expect("the errors list must be kept");
            assert_eq!(errors.len(), 1);
            assert_eq!(errors[0], "\"boom\"");
        }
        other => panic!("expected an upstream-reported failure, got {:?}", other),
    }
}

#[test]
fn profile_query_body_is_the_fixed_document() {
    assert_eq!(
        ProfileQuery::build_query(),
        "{\"query\":\"query { viewer { login name } }\",\"variables\":{}}"
    );
}

#[test]
fn repository_query_body_quotes_its_variables() {
    let body = RepositoryQuery::build_query("octo \"cat\"", "repo");
    assert_eq!(
        body,
        "{\"query\":\"query ($owner: String!, $name: String!) { repository(owner: $owner, name: $name) { name description url } }\",\"variables\":{\"owner\":\"octo \\\"cat\\\"\",\"name\":\"repo\"}}"
    );
}
