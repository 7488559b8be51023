//! The boundary contract of the stored-configuration lookup: how the row
//! lookup's outcome maps onto the error taxonomy. The storage access itself
//! and the configuration type live outside the library.

use vstd::prelude::*;

use crate::error::AppError;

verus! {

/// The outcome of the stored-configuration row lookup that the surrounding
/// layer performs.
#[derive(Debug, Clone, PartialEq, Eq)]
pub enum ConfigLookup {
    /// The row was found; the stored document's text.
    Row(String),
    /// No row exists for the project.
    RowNotFound,
    /// The storage layer failed for another reason; its description.
    Failure(String),
}

/// Maps a row lookup's outcome onto the taxonomy: a missing row is the
/// not-found failure, any other storage failure the generic one, and a found
/// row hands its document on for the surrounding layer to deserialize.
pub fn classify_config_lookup(lookup: ConfigLookup) -> (r: Result<String, AppError>)
    ensures
        match lookup {
            ConfigLookup::Row(doc) => r == Ok::<String, AppError>(doc),
            ConfigLookup::RowNotFound => r == Err::<String, AppError>(AppError::NotFound),
            ConfigLookup::Failure(m) => r == Err::<String, AppError>(AppError::StorageError(m)),
        },
{
    match lookup {
        ConfigLookup::Row(doc) => Ok(doc),
        ConfigLookup::RowNotFound => Err(AppError::NotFound),
        ConfigLookup::Failure(m) => Err(AppError::StorageError(m)),
    }
}

} // verus!
