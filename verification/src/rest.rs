//! The REST operations' response logic: user events, language byte counts
//! and path content. Each operation's HTTP round trip happens outside the
//! library; the status and body text come here to be classified and decoded.

use std::collections::HashMap;

use vstd::prelude::*;
use vstd::string::StringExecFns;

use crate::content::{ContentView, GitHubContentObject};
use crate::error::{
    normalize_error_body, normalized_error_view, result_view, AppError, AppErrorView,
    ErrorBodyView, GitHubErrorBody,
};
use crate::text::{raw_error_message, raw_error_message_view};

verus! {

/// Whether a status code reports success: the 2xx range.
pub open spec fn is_success(status: int) -> bool {
    200 <= status < 300
}

/// Tests a response's status code for the 2xx range.
pub fn status_is_success(status: u16) -> (r: bool)
    ensures
        r == is_success(status as int),
{
    200 <= status && status < 300
}

/// One record of a user's public event feed.
#[derive(Debug, Clone, PartialEq, Eq)]
pub struct Event {
    pub id: String,
    pub kind: String,
    pub created_at: String,
}

/// Spec-level image of [`Event`].
#[verifier::ext_equal]
pub struct EventView {
    pub id: Seq<char>,
    pub kind: Seq<char>,
    pub created_at: Seq<char>,
}

impl DeepView for Event {
    type V = EventView;

    open spec fn deep_view(&self) -> EventView {
        EventView {
            id: self.id.deep_view(),
            kind: self.kind.deep_view(),
            created_at: self.created_at.deep_view(),
        }
    }
}

/// What the event-feed body parses to: `None` when it is not a JSON array of
/// event records.
pub uninterp spec fn parsed_events(s: Seq<char>) -> Option<Seq<EventView>>;

/// Relies on `serde_json::from_str` and the `serde_json::Value` accessors:
/// parses a JSON array of event records, each with string `id`, `type` and
/// `created_at` fields.
#[verifier::external_body]
fn parse_events_json(body: &str) -> (r: Option<Vec<Event>>)
    ensures
        match r {
            Some(evs) => parsed_events(body@) == Some(evs.deep_view()),
            None => parsed_events(body@) is None,
        },
{
    let v: Vec<serde_json::Value> = serde_json::from_str(body).ok()?;
    v.into_iter().map(|e| Some(Event {
        id: e.get("id")?.as_str()?.to_string(),
        kind: e.get("type")?.as_str()?.to_string(),
        created_at: e.get("created_at")?.as_str()?.to_string(),
    })).collect()
}

/// What the language-breakdown body parses to: a mapping from language name
/// to byte count, or `None` when it is not such a JSON object.
pub uninterp spec fn parsed_languages(s: Seq<char>) -> Option<Map<Seq<char>, i32>>;

/// Relies on `serde_json::from_str`: parses a JSON object of integer values
/// into a map from language name to byte count.
#[verifier::external_body]
fn parse_languages_json(body: &str) -> (r: Option<HashMap<String, i32>>)
    ensures
        match r {
            Some(m) => parsed_languages(body@) == Some(m.deep_view()),
            None => parsed_languages(body@) is None,
        },
{
    serde_json::from_str(body).ok()
}

/// What the content body parses to: a Content object, or the description of
/// why it is not one.
pub uninterp spec fn parsed_content(s: Seq<char>) -> Result<ContentView, Seq<char>>;

/// Relies on `serde_json::from_str` and the `serde_json::Value` accessors:
/// parses the content-lookup response object; the string fields and the
/// name-to-URL link table are required, `content` stays optional.
#[verifier::external_body]
fn parse_content_json(body: &str) -> (r: Result<GitHubContentObject, String>)
    ensures
        match r {
            Ok(c) => parsed_content(body@) == Ok::<ContentView, Seq<char>>(c.deep_view()),
            Err(m) => parsed_content(body@) == Err::<ContentView, Seq<char>>(m@),
        },
{
    let v: serde_json::Value = serde_json::from_str(body).map_err(|e| e.to_string())?;
    let g = |k: &str| Some(v.get(k)?.as_str()?.to_string());
    (|| Some(GitHubContentObject {
        name: g("name")?, path: g("path")?, sha: g("sha")?,
        size: v.get("size")?.as_i64()? as i32,
        url: g("url")?, html_url: g("html_url")?, git_url: g("git_url")?,
        download_url: g("download_url")?, object_type: g("type")?,
        content: g("content"), encoding: g("encoding")?,
        links: serde_json::from_value(v.get("_links")?.clone()).ok()?,
    }))().ok_or("missing or mistyped content response field".to_string())
}

/// The outcome the user-events lookup owes for a given status and body: the
/// decoded records on success, the normalized error on an upstream-reported
/// failure, and a decode failure when a success body is not an event array.
pub open spec fn events_outcome(status: int, body: Seq<char>) -> Result<
    Seq<EventView>,
    AppErrorView,
> {
    if !is_success(status) {
        Err(AppErrorView::GitHubError(normalized_error_view(body)))
    } else {
        match parsed_events(body) {
            Some(evs) => Ok(evs),
            None => Err(AppErrorView::DecodeError("could not decode user events response"@)),
        }
    }
}

/// Classifies a user-events response. A non-success body goes through the
/// Error Normalizer; a success body decodes to the event records.
pub fn events_from_response(status: u16, body: &str) -> (r: Result<Vec<Event>, AppError>)
    ensures
        result_view(r) == events_outcome(status as int, body@),
{
    if !status_is_success(status) {
        Err(AppError::GitHubError(normalize_error_body(body)))
    } else {
        match parse_events_json(body) {
            Some(evs) => Ok(evs),
            None => Err(
                AppError::DecodeError(String::from_str("could not decode user events response")),
            ),
        }
    }
}

/// The error view wrapping a raw status-and-body message with no structured
/// detail.
pub open spec fn raw_error_view(status: int, body: Seq<char>) -> ErrorBodyView {
    ErrorBodyView {
        documentation_url: None,
        errors: None,
        message: raw_error_message_view(status, body),
    }
}

/// The outcome the language lookup owes: the byte-count map on success, or
/// the raw status and body text wrapped verbatim, with no structured parse
/// attempted.
pub open spec fn languages_outcome(status: int, body: Seq<char>) -> Result<
    Map<Seq<char>, i32>,
    AppErrorView,
> {
    if !is_success(status) {
        Err(AppErrorView::GitHubError(raw_error_view(status, body)))
    } else {
        match parsed_languages(body) {
            Some(m) => Ok(m),
            None => Err(AppErrorView::DecodeError("could not decode language response"@)),
        }
    }
}

/// Classifies a language-lookup response.
pub fn languages_from_response(status: u16, body: &str) -> (r: Result<
    HashMap<String, i32>,
    AppError,
>)
    ensures
        result_view(r) == languages_outcome(status as int, body@),
{
    if !status_is_success(status) {
        Err(
            AppError::GitHubError(
                GitHubErrorBody {
                    documentation_url: None,
                    errors: None,
                    message: raw_error_message(status, body),
                },
            ),
        )
    } else {
        match parse_languages_json(body) {
            Some(m) => Ok(m),
            None => Err(
                AppError::DecodeError(String::from_str("could not decode language response")),
            ),
        }
    }
}

/// The outcome the content lookup owes: the Content object on success, the
/// raw status and body text wrapped verbatim on failure, and a distinct
/// configuration-parse failure when a success body is malformed.
pub open spec fn content_outcome(status: int, body: Seq<char>) -> Result<
    ContentView,
    AppErrorView,
> {
    if !is_success(status) {
        Err(AppErrorView::GitHubError(raw_error_view(status, body)))
    } else {
        match parsed_content(body) {
            Ok(c) => Ok(c),
            Err(m) => Err(AppErrorView::ParseConfigError(m)),
        }
    }
}

/// Classifies a content-lookup response. A malformed success body is a
/// configuration-parse failure carrying the decode error's description,
/// distinct from an upstream-reported failure.
pub fn content_from_response(status: u16, body: &str) -> (r: Result<GitHubContentObject, AppError>)
    ensures
        result_view(r) == content_outcome(status as int, body@),
{
    if !status_is_success(status) {
        Err(
            AppError::GitHubError(
                GitHubErrorBody {
                    documentation_url: None,
                    errors: None,
                    message: raw_error_message(status, body),
                },
            ),
        )
    } else {
        match parse_content_json(body) {
            Ok(c) => Ok(c),
            Err(m) => Err(AppError::ParseConfigError(m)),
        }
    }
}

} // verus!
