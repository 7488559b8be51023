//! The REST operations' response classification: user events, language byte
//! counts and path content.

use mosaic_github::error::AppError;
use mosaic_github::rest::{
    content_from_response, events_from_response, languages_from_response,
};

#[test]
fn empty_event_feed_is_a_successful_empty_sequence() {
    let r = events_from_response(200, "[]");
    let events = r.expect("an empty list is a success, not an error");
    assert_eq!(events.len(), 0);
}

#[test]
fn event_records_are_decoded_field_by_field() {
    let body = "[{\"id\":\"123\",\"type\":\"PushEvent\",\"created_at\":\"2024-05-01T10:00:00Z\",\"public\":true}]";
    let events = events_from_response(201, body).expect("a record array decodes");
    assert_eq!(events.len(), 1);
    assert_eq!(events[0].id, "123");
    assert_eq!(events[0].kind, "PushEvent");
    assert_eq!(events[0].created_at, "2024-05-01T10:00:00Z");
}

#[test]
fn event_failure_goes_through_the_normalizer() {
    let body = "{\"message\":\"Bad credentials\",\"documentation_url\":\"https://docs.example/auth\"}";
    match events_from_response(401, body) {
        Err(AppError::GitHubError(e)) => {
            assert_eq!(e.message, "Bad credentials");
            assert_eq!(e.documentation_url, Some("https://docs.example/auth".to_string()));
            assert_eq!(e.errors, None);
        }
        other => panic!("expected an upstream-reported failure, got {:?}", other),
    }
}

#[test]
fn event_success_with_a_malformed_body_is_a_decode_failure() {
    match events_from_response(200, "not json at all") {
        Err(AppError::DecodeError(_)) => {}
        other => panic!("expected a decode failure, got {:?}", other),
    }
}

#[test]
fn language_failure_wraps_status_and_body_verbatim() {
    match languages_from_response(500, "internal error") {
        Err(AppError::GitHubError(e)) => {
            assert_eq!(e.message, "GitHub API error: status = 500, message = internal error");
            assert!(e.message.contains("500"));
            assert!(e.message.contains("internal error"));
            assert_eq!(e.documentation_url, None);
            assert_eq!(e.errors, None);
        }
        other => panic!("expected an upstream-reported failure, got {:?}", other),
    }
}

#[test]
fn language_counts_are_decoded_into_a_map() {
    let body = "{\"Rust\":1024,\"C\":512}";
    let m = languages_from_response(200, body).expect("a byte-count object decodes");
    assert_eq!(m.len(), 2);
    assert_eq!(m.get("Rust"), Some(&1024));
    assert_eq!(m.get("C"), Some(&512));
}

#[test]
fn language_success_with_a_malformed_body_is_a_decode_failure() {
    match languages_from_response(204, "[1,2,3]") {
        Err(AppError::DecodeError(_)) => {}
        other => panic!("expected a decode failure, got {:?}", other),
    }
}

#[test]
fn content_not_found_is_wrapped_raw_like_a_language_failure() {
    // The content lookup attempts no structured parse of a failure body and
    // does not special-case a missing path: the status and the body text are
    // wrapped verbatim as an upstream-reported failure.
    let body = "{\"message\":\"Not Found\",\"documentation_url\":\"https://docs.example/x\"}";
    match content_from_response(404, body) {
        Err(AppError::GitHubError(e)) => {
            assert_eq!(
                e.message,
                format!("GitHub API error: status = 404, message = {}", body)
            );
            assert_eq!(e.documentation_url, None);
            assert_eq!(e.errors, None);
        }
        other => panic!("expected an upstream-reported failure, got {:?}", other),
    }
}

#[test]
fn content_object_is_decoded_field_by_field() {
    let body = "{\"name\":\"README.md\",\"path\":\"docs/README.md\",\"sha\":\"abc123\",\"size\":14,\
\"url\":\"https://api.example/u\",\"html_url\":\"https://example/h\",\"git_url\":\"https://example/g\",\
\"download_url\":\"https://example/d\",\"type\":\"file\",\"content\":\"aGVsbG8=\",\"encoding\":\"base64\",\
\"_links\":{\"self\":\"https://api.example/u\"}}";
    let c = content_from_response(200, body).expect("a content object decodes");
    assert_eq!(c.name, "README.md");
    assert_eq!(c.path, "docs/README.md");
    assert_eq!(c.sha, "abc123");
    assert_eq!(c.size, 14);
    assert_eq!(c.url, "https://api.example/u");
    assert_eq!(c.html_url, "https://example/h");
    assert_eq!(c.git_url, "https://example/g");
    assert_eq!(c.download_url, "https://example/d");
    assert_eq!(c.object_type, "file");
    assert_eq!(c.content, Some("aGVsbG8=".to_string()));
    assert_eq!(c.encoding, "base64");
    assert_eq!(c.links.get("self"), Some(&"https://api.example/u".to_string()));
}

#[test]
fn content_success_with_a_malformed_body_is_a_parse_failure() {
    match content_from_response(200, "{\"name\":42}") {
        Err(AppError::ParseConfigError(_)) => {}
        other => panic!("expected a configuration-parse failure, got {:?}", other),
    }
}
