//! The GraphQL operations' response logic: the viewer-profile lookup and the
//! named-repository lookup. Each posts a fixed query document (built in
//! `client`) and receives an envelope carrying a data payload, an errors
//! list, or both; the resolution order lives here.

use vstd::prelude::*;
use vstd::string::StringExecFns;

use crate::error::{result_view, AppError, AppErrorView, ErrorBodyView, GitHubErrorBody};
use crate::rest::{is_success, status_is_success};

verus! {

/// The authenticated viewer's profile, from the profile query's data payload.
#[derive(Debug, Clone, PartialEq, Eq)]
pub struct Profile {
    pub login: String,
    pub name: Option<String>,
}

/// Spec-level image of [`Profile`].
#[verifier::ext_equal]
pub struct ProfileView {
    pub login: Seq<char>,
    pub name: Option<Seq<char>>,
}

impl DeepView for Profile {
    type V = ProfileView;

    open spec fn deep_view(&self) -> ProfileView {
        ProfileView { login: self.login.deep_view(), name: self.name.deep_view() }
    }
}

/// A named repository, from the repository query's data payload.
#[derive(Debug, Clone, PartialEq, Eq)]
pub struct Repository {
    pub name: String,
    pub description: Option<String>,
    pub url: String,
}

/// Spec-level image of [`Repository`].
#[verifier::ext_equal]
pub struct RepositoryView {
    pub name: Seq<char>,
    pub description: Option<Seq<char>>,
    pub url: Seq<char>,
}

impl DeepView for Repository {
    type V = RepositoryView;

    open spec fn deep_view(&self) -> RepositoryView {
        RepositoryView {
            name: self.name.deep_view(),
            description: self.description.deep_view(),
            url: self.url.deep_view(),
        }
    }
}

/// The profile query's response envelope: an optional errors list, each
/// error kept as its JSON text, and the viewer when the data payload is
/// present.
#[derive(Debug, Clone, PartialEq, Eq)]
pub struct ProfileEnvelope {
    pub errors: Option<Vec<String>>,
    pub viewer: Option<Profile>,
}

/// Spec-level image of [`ProfileEnvelope`].
#[verifier::ext_equal]
pub struct ProfileEnvelopeView {
    pub errors: Option<Seq<Seq<char>>>,
    pub viewer: Option<ProfileView>,
}

impl DeepView for ProfileEnvelope {
    type V = ProfileEnvelopeView;

    open spec fn deep_view(&self) -> ProfileEnvelopeView {
        ProfileEnvelopeView { errors: self.errors.deep_view(), viewer: self.viewer.deep_view() }
    }
}

/// The repository query's response envelope: an optional errors list, and
/// the repository when the data payload carries one. A null repository in a
/// present data payload parses to an absent repository.
#[derive(Debug, Clone, PartialEq, Eq)]
pub struct RepositoryEnvelope {
    pub errors: Option<Vec<String>>,
    pub repository: Option<Repository>,
}

/// Spec-level image of [`RepositoryEnvelope`].
#[verifier::ext_equal]
pub struct RepositoryEnvelopeView {
    pub errors: Option<Seq<Seq<char>>>,
    pub repository: Option<RepositoryView>,
}

impl DeepView for RepositoryEnvelope {
    type V = RepositoryEnvelopeView;

    open spec fn deep_view(&self) -> RepositoryEnvelopeView {
        RepositoryEnvelopeView {
            errors: self.errors.deep_view(),
            repository: self.repository.deep_view(),
        }
    }
}

/// What the profile response body parses to: `None` when it is not a JSON
/// envelope.
pub uninterp spec fn parsed_profile_envelope(s: Seq<char>) -> Option<ProfileEnvelopeView>;

/// Relies on `serde_json::from_str` and the `serde_json::Value` accessors:
/// parses the GraphQL envelope, keeping each error as its JSON text and
/// taking the viewer from the data payload.
#[verifier::external_body]
fn parse_profile_envelope_json(body: &str) -> (r: Option<ProfileEnvelope>)
    ensures
        match r {
            Some(env) => parsed_profile_envelope(body@) == Some(env.deep_view()),
            None => parsed_profile_envelope(body@) is None,
        },
{
    let v: serde_json::Value = serde_json::from_str(body).ok()?;
    let errors = v.get("errors").and_then(|e| e.as_array()).map(|a| a.iter().map(|x| x.to_string()).collect());
    let viewer = v.get("data").and_then(|d| d.get("viewer")).and_then(|w| Some(Profile {
        login: w.get("login")?.as_str()?.to_string(),
        name: w.get("name").and_then(|n| n.as_str()).map(str::to_string),
    }));
    Some(ProfileEnvelope { errors, viewer })
}

/// What the repository response body parses to: `None` when it is not a JSON
/// envelope.
pub uninterp spec fn parsed_repository_envelope(s: Seq<char>) -> Option<RepositoryEnvelopeView>;

/// Relies on `serde_json::from_str` and the `serde_json::Value` accessors:
/// parses the GraphQL envelope, keeping each error as its JSON text and
/// taking the repository from the data payload; a null repository becomes an
/// absent one.
#[verifier::external_body]
fn parse_repository_envelope_json(body: &str) -> (r: Option<RepositoryEnvelope>)
    ensures
        match r {
            Some(env) => parsed_repository_envelope(body@) == Some(env.deep_view()),
            None => parsed_repository_envelope(body@) is None,
        },
{
    let v: serde_json::Value = serde_json::from_str(body).ok()?;
    let errors = v.get("errors").and_then(|e| e.as_array()).map(|a| a.iter().map(|x| x.to_string()).collect());
    let repository = v.get("data").and_then(|d| d.get("repository")).and_then(|x| Some(Repository {
        name: x.get("name")?.as_str()?.to_string(),
        description: x.get("description").and_then(|n| n.as_str()).map(str::to_string),
        url: x.get("url")?.as_str()?.to_string(),
    }));
    Some(RepositoryEnvelope { errors, repository })
}

/// The fixed normalized error with only a message.
pub open spec fn message_only_view(message: Seq<char>) -> ErrorBodyView {
    ErrorBodyView { documentation_url: None, errors: None, message }
}

/// The outcome the profile lookup owes, in resolution order: a non-success
/// status gives a fixed message; an envelope with an errors list keeps that
/// list; a missing viewer gives the fixed message; otherwise the profile.
pub open spec fn profile_outcome(status: int, body: Seq<char>) -> Result<
    ProfileView,
    AppErrorView,
> {
    if !is_success(status) {
        Err(AppErrorView::GitHubError(message_only_view("Failed to fetch user profile"@)))
    } else {
        match parsed_profile_envelope(body) {
            None => Err(AppErrorView::DecodeError("could not decode profile response"@)),
            Some(env) => match env.errors {
                Some(errs) => Err(
                    AppErrorView::GitHubError(
                        ErrorBodyView {
                            documentation_url: None,
                            errors: Some(errs),
                            message: "Failed to fetch user profile"@,
                        },
                    ),
                ),
                None => match env.viewer {
                    Some(p) => Ok(p),
                    None => Err(
                        AppErrorView::GitHubError(
                            message_only_view("Failed to fetch user profile"@),
                        ),
                    ),
                },
            },
        }
    }
}

/// Classifies a profile-lookup response.
pub fn profile_from_response(status: u16, body: &str) -> (r: Result<Profile, AppError>)
    ensures
        result_view(r) == profile_outcome(status as int, body@),
{
    if !status_is_success(status) {
        return Err(
            AppError::GitHubError(
                GitHubErrorBody {
                    documentation_url: None,
                    errors: None,
                    message: String::from_str("Failed to fetch user profile"),
                },
            ),
        );
    }
    match parse_profile_envelope_json(body) {
        None => Err(AppError::DecodeError(String::from_str("could not decode profile response"))),
        Some(env) => {
            let ProfileEnvelope { errors, viewer } = env;
            match errors {
                Some(errs) => Err(
                    AppError::GitHubError(
                        GitHubErrorBody {
                            documentation_url: None,
                            errors: Some(errs),
                            message: String::from_str("Failed to fetch user profile"),
                        },
                    ),
                ),
                None => match viewer {
                    Some(p) => Ok(p),
                    None => Err(
                        AppError::GitHubError(
                            GitHubErrorBody {
                                documentation_url: None,
                                errors: None,
                                message: String::from_str("Failed to fetch user profile"),
                            },
                        ),
                    ),
                },
            }
        },
    }
}

/// The outcome the repository lookup owes, in the same resolution order as
/// the profile lookup but with its own message on every failure branch: a
/// present data payload with no repository is the not-found case.
pub open spec fn repository_outcome(status: int, body: Seq<char>) -> Result<
    RepositoryView,
    AppErrorView,
> {
    if !is_success(status) {
        Err(AppErrorView::GitHubError(message_only_view("Failed to fetch repository"@)))
    } else {
        match parsed_repository_envelope(body) {
            None => Err(AppErrorView::DecodeError("could not decode repository response"@)),
            Some(env) => match env.errors {
                Some(errs) => Err(
                    AppErrorView::GitHubError(
                        ErrorBodyView {
                            documentation_url: None,
                            errors: Some(errs),
                            message: "Failed to fetch repository"@,
                        },
                    ),
                ),
                None => match env.repository {
                    Some(rep) => Ok(rep),
                    None => Err(
                        AppErrorView::GitHubError(
                            message_only_view("Failed to fetch repository"@),
                        ),
                    ),
                },
            },
        }
    }
}

/// Classifies a repository-lookup response.
pub fn repository_from_response(status: u16, body: &str) -> (r: Result<Repository, AppError>)
    ensures
        result_view(r) == repository_outcome(status as int, body@),
{
    if !status_is_success(status) {
        return Err(
            AppError::GitHubError(
                GitHubErrorBody {
                    documentation_url: None,
                    errors: None,
                    message: String::from_str("Failed to fetch repository"),
                },
            ),
        );
    }
    match parse_repository_envelope_json(body) {
        None => Err(
            AppError::DecodeError(String::from_str("could not decode repository response")),
        ),
        Some(env) => {
            let RepositoryEnvelope { errors, repository } = env;
            match errors {
                Some(errs) => Err(
                    AppError::GitHubError(
                        GitHubErrorBody {
                            documentation_url: None,
                            errors: Some(errs),
                            message: String::from_str("Failed to fetch repository"),
                        },
                    ),
                ),
                None => match repository {
                    Some(rep) => Ok(rep),
                    None => Err(
                        AppError::GitHubError(
                            GitHubErrorBody {
                                documentation_url: None,
                                errors: None,
                                message: String::from_str("Failed to fetch repository"),
                            },
                        ),
                    ),
                },
            }
        },
    }
}

/// The errors list a profile response body carries, when any.
pub open spec fn profile_envelope_errors(body: Seq<char>) -> Option<Seq<Seq<char>>> {
    match parsed_profile_envelope(body) {
        Some(env) => env.errors,
        None => None,
    }
}

/// The errors list a repository response body carries, when any.
pub open spec fn repository_envelope_errors(body: Seq<char>) -> Option<Seq<Seq<char>>> {
    match parsed_repository_envelope(body) {
        Some(env) => env.errors,
        None => None,
    }
}

/// Law: on an HTTP success whose envelope carries an errors list, the
/// profile lookup's normalized error keeps that list element for element,
/// and so keeps its length.
pub proof fn lemma_profile_errors_kept(status: int, body: Seq<char>, errs: Seq<Seq<char>>)
    requires
        is_success(status),
        profile_envelope_errors(body) == Some(errs),
    ensures
        profile_outcome(status, body) matches Err(AppErrorView::GitHubError(g)) && g.errors
            == Some(errs) && g.errors.unwrap().len() == errs.len(),
{
}

/// Law: on an HTTP success whose envelope carries an errors list, the
/// repository lookup's normalized error keeps that list element for element,
/// and so keeps its length.
pub proof fn lemma_repository_errors_kept(status: int, body: Seq<char>, errs: Seq<Seq<char>>)
    requires
        is_success(status),
        repository_envelope_errors(body) == Some(errs),
    ensures
        repository_outcome(status, body) matches Err(AppErrorView::GitHubError(g)) && g.errors
            == Some(errs) && g.errors.unwrap().len() == errs.len(),
{
}

/// Whether a repository response body is a well-formed envelope that reports
/// no errors and carries no repository: the not-found shape.
pub open spec fn envelope_reports_missing_repository(body: Seq<char>) -> bool {
    parsed_repository_envelope(body) matches Some(env) && env.errors is None && env.repository
        is None
}

/// Law: a repository lookup whose envelope has a data payload but no
/// repository resolves to the not-found-flavored normalized error, never a
/// crash and never a success.
pub proof fn lemma_missing_repository_is_not_found(status: int, body: Seq<char>)
    requires
        is_success(status),
        envelope_reports_missing_repository(body),
    ensures
        repository_outcome(status, body) == Err::<
            RepositoryView,
            AppErrorView,
        >(AppErrorView::GitHubError(message_only_view("Failed to fetch repository"@))),
{
}

} // verus!
