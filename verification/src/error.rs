//! The one error taxonomy that every operation reports through, and the
//! normalizer that folds the upstream's heterogeneous failure bodies into it.

use vstd::prelude::*;
use vstd::string::StringExecFns;

verus! {

/// The structured error document that the upstream REST API returns on
/// failures: a human-readable message, an optional documentation reference,
/// and an optional list of structured sub-errors. Every sub-error is kept as
/// the JSON text of the payload the upstream sent.
#[derive(Debug, Clone, PartialEq, Eq)]
pub struct GitHubErrorBody {
    pub documentation_url: Option<String>,
    pub errors: Option<Vec<String>>,
    pub message: String,
}

/// Spec-level image of [`GitHubErrorBody`].
#[verifier::ext_equal]
pub struct ErrorBodyView {
    pub documentation_url: Option<Seq<char>>,
    pub errors: Option<Seq<Seq<char>>>,
    pub message: Seq<char>,
}

impl DeepView for GitHubErrorBody {
    type V = ErrorBodyView;

    open spec fn deep_view(&self) -> ErrorBodyView {
        ErrorBodyView {
            documentation_url: self.documentation_url.deep_view(),
            errors: self.errors.deep_view(),
            message: self.message.deep_view(),
        }
    }
}

/// Everything an operation of this library can fail with.
#[derive(Debug, Clone, PartialEq, Eq)]
pub enum AppError {
    /// The upstream responded and reported an application-level failure.
    GitHubError(GitHubErrorBody),
    /// A response or stored document could not be parsed as the expected
    /// configuration/content shape.
    ParseConfigError(String),
    /// A response body was not the structured type the operation expected.
    DecodeError(String),
    /// The request could not be sent or the response could not be read.
    TransportError(String),
    /// The credential cannot be encoded into a valid authorization header.
    InvalidCredential,
    /// A stored-configuration lookup found no row.
    NotFound,
    /// A stored-configuration lookup failed for another reason.
    StorageError(String),
}

/// Spec-level image of [`AppError`].
#[verifier::ext_equal]
pub enum AppErrorView {
    GitHubError(ErrorBodyView),
    ParseConfigError(Seq<char>),
    DecodeError(Seq<char>),
    TransportError(Seq<char>),
    InvalidCredential,
    NotFound,
    StorageError(Seq<char>),
}

impl DeepView for AppError {
    type V = AppErrorView;

    open spec fn deep_view(&self) -> AppErrorView {
        match self {
            AppError::GitHubError(e) => AppErrorView::GitHubError(e.deep_view()),
            AppError::ParseConfigError(m) => AppErrorView::ParseConfigError(m.deep_view()),
            AppError::DecodeError(m) => AppErrorView::DecodeError(m.deep_view()),
            AppError::TransportError(m) => AppErrorView::TransportError(m.deep_view()),
            AppError::InvalidCredential => AppErrorView::InvalidCredential,
            AppError::NotFound => AppErrorView::NotFound,
            AppError::StorageError(m) => AppErrorView::StorageError(m.deep_view()),
        }
    }
}

/// Spec-level image of a `Result` whose sides both have deep views.
pub open spec fn result_view<T: DeepView, E: DeepView>(r: Result<T, E>) -> Result<T::V, E::V> {
    match r {
        Ok(t) => Ok(t.deep_view()),
        Err(e) => Err(e.deep_view()),
    }
}

/// What the upstream structured-error shape parses to on a given body text:
/// `None` when the body is not such a document.
pub uninterp spec fn parsed_error_body(s: Seq<char>) -> Option<ErrorBodyView>;

/// Relies on `serde_json::from_str` and the `serde_json::Value` accessors:
/// parses the upstream structured-error shape, a JSON object with a string
/// `message`, an optional string `documentation_url` and an optional array
/// `errors`, each sub-error kept as its JSON text.
#[verifier::external_body]
fn parse_error_body_json(body: &str) -> (r: Option<GitHubErrorBody>)
    ensures
        match r {
            Some(e) => parsed_error_body(body@) == Some(e.deep_view()),
            None => parsed_error_body(body@) is None,
        },
{
    let v: serde_json::Value = match serde_json::from_str(body) {
        Ok(v) => v,
        Err(_) => return None,
    };
    let message = v.get("message")?.as_str()?.to_string();
    let documentation_url = v.get("documentation_url").and_then(|u| u.as_str()).map(str::to_string);
    let errors = v.get("errors").and_then(|e| e.as_array()).map(|a| a.iter().map(|x| x.to_string()).collect());
    Some(GitHubErrorBody { documentation_url, errors, message })
}

/// The normalizer's fallback: the raw body text becomes the message and the
/// structured fields stay absent.
pub open spec fn fallback_error_view(body: Seq<char>) -> ErrorBodyView {
    ErrorBodyView { documentation_url: None, errors: None, message: body }
}

/// What the Error Normalizer returns for a given upstream failure body.
pub open spec fn normalized_error_view(body: Seq<char>) -> ErrorBodyView {
    match parsed_error_body(body) {
        Some(e) => e,
        None => fallback_error_view(body),
    }
}

/// Error Normalizer: folds an upstream failure body into the one internal
/// error shape. A body matching the structured error shape is taken apart
/// exactly; any other body becomes the message of a fallback value with no
/// structured detail. This function never fails.
pub fn normalize_error_body(body: &str) -> (r: GitHubErrorBody)
    ensures
        r.deep_view() == normalized_error_view(body@),
        parsed_error_body(body@) matches Some(e) ==> r.deep_view() == e,
        parsed_error_body(body@) is None ==> r.deep_view() == fallback_error_view(body@),
{
    match parse_error_body_json(body) {
        Some(e) => e,
        None => GitHubErrorBody {
            documentation_url: None,
            errors: None,
            message: String::from_str(body),
        },
    }
}

} // verus!
