//! Failure kinds: what the persistence layer reports, and what the user
//! profile endpoint reports.

use crate::routes::status::{STATUS_INTERNAL_SERVER_ERROR, STATUS_NOT_FOUND};
use vstd::prelude::*;

verus! {

/// Why a repository operation did not yield a result.
#[derive(Debug)]
pub enum RepositoryError {
    /// The operation needs an existing record and there is none with that id.
    RowNotFound,
    /// The store failed; the text is the store's own description.
    Persistence(String),
}

impl RepositoryError {
    /// Whether this is the "not found" outcome rather than a store failure.
    pub fn is_not_found(&self) -> (r: bool)
        ensures
            r == (self is RowNotFound),
    {
        match self {
            RepositoryError::RowNotFound => true,
            RepositoryError::Persistence(_) => false,
        }
    }
}

/// Failures of the user profile endpoint.
#[derive(Debug)]
pub enum AppError {
    /// The upstream service could not be reached or answered nonsense; the
    /// text describes the cause and is never shown to the client.
    ExternalApiError(String),
    NotFound,
    InternalError,
}

impl AppError {
    /// The HTTP status that reports this failure.
    pub open spec fn spec_status(self) -> u16 {
        match self {
            AppError::NotFound => STATUS_NOT_FOUND,
            _ => STATUS_INTERNAL_SERVER_ERROR,
        }
    }

    /// The text shown to the client; it never carries the cause.
    pub open spec fn spec_message(self) -> Seq<char> {
        match self {
            AppError::ExternalApiError(_) => "External API error"@,
            AppError::NotFound => "User not found"@,
            AppError::InternalError => "Internal server error"@,
        }
    }

    /// The text shown to the client.
    pub fn message(&self) -> (r: String)
        ensures
            r@ == self.spec_message(),
    {
        match self {
            AppError::ExternalApiError(_) => "External API error".to_owned(),
            AppError::NotFound => "User not found".to_owned(),
            AppError::InternalError => "Internal server error".to_owned(),
        }
    }

    /// The HTTP status that reports this failure.
    pub fn status(&self) -> (r: u16)
        ensures
            r == self.spec_status(),
    {
        match self {
            AppError::NotFound => STATUS_NOT_FOUND,
            _ => STATUS_INTERNAL_SERVER_ERROR,
        }
    }

    /// Status and body of the response for this failure: 404 for `NotFound`,
    /// 500 for the others, each with the failure's fixed text.
    pub fn into_response(self) -> (r: (u16, String))
        ensures
            r.0 == self.spec_status(),
            r.1@ == self.spec_message(),
    {
        let text = self.message();
        (self.status(), text)
    }

    /// What the upstream answer's status means for a profile request: 404 is
    /// `NotFound`, every other status lets the body through.
    pub fn from_upstream_status(status: u16) -> (r: Option<AppError>)
        ensures
            r == (if status == STATUS_NOT_FOUND {
                Some(AppError::NotFound)
            } else {
                None::<AppError>
            }),
    {
        if status == STATUS_NOT_FOUND {
            Some(AppError::NotFound)
        } else {
            None
        }
    }
}

} // verus!
