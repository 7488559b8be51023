//! Verified core of a client for a source-hosting platform's HTTP APIs.
//!
//! The library owns everything that can be checked without doing I/O:
//! credential validation, URL and query construction, normalization of the
//! upstream error shapes, response classification for the REST and GraphQL
//! operations, and the decoding of base64 file content. The surrounding
//! binary performs the HTTP round trips and hands each response's status and
//! body text to the functions here.

pub mod client;
pub mod config;
pub mod content;
pub mod error;
pub mod graphql;
pub mod rest;
pub mod text;

pub use client::{GitHubClient, ProfileQuery, RepositoryQuery};
pub use content::GitHubContentObject;

pub use error::{AppError, ErrorBodyView, GitHubErrorBody};
