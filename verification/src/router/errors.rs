//! The transport-level error and the pure mapping from every error kind to
//! a response classification with a human-readable detail.

use vstd::prelude::*;
use crate::dao::errors::{GetError, GetRandomError};
use crate::repository::errors::{
    CreateFactError,
    DeleteFactError,
    GetFactError,
    GetRandomFactError,
};
use crate::repository::models::{CreateFactRequestError, FactIdError};

verus! {

/// The classification of a response: not found, unprocessable input,
/// internal error, or forbidden.
#[derive(Clone, Copy, Debug, PartialEq, Eq, Structural)]
pub enum StatusClass {
    NotFound,
    UnprocessableInput,
    InternalError,
    Forbidden,
}

/// A transport-level error: a status classification plus a detail string.
#[derive(Debug)]
pub struct AppError {
    pub status_class: StatusClass,
    pub details: String,
}

impl AppError {
    /// Maps a missing entity to the "not found" class.
    pub fn from_get_error(e: &GetError) -> (r: AppError)
        ensures
            r.status_class == StatusClass::NotFound,
            r.details@ == e.spec_message(),
    {
        AppError { status_class: StatusClass::NotFound, details: e.message() }
    }

    /// Maps an empty collection to the "not found" class.
    pub fn from_get_random_error(e: &GetRandomError) -> (r: AppError)
        ensures
            r.status_class == StatusClass::NotFound,
            r.details@ == e.spec_message(),
    {
        AppError { status_class: StatusClass::NotFound, details: e.message() }
    }

    /// Maps a fact lookup failure: a missing fact to "not found", a storage
    /// failure to "internal error".
    pub fn from_get_fact_error(e: &GetFactError) -> (r: AppError)
        ensures
            r.status_class == match e {
                GetFactError::NoSuchFact { id: _ } => StatusClass::NotFound,
                GetFactError::UnexpectedError { inner: _ } => StatusClass::InternalError,
            },
            r.details@ == e.spec_message(),
    {
        let status_class = match e {
            GetFactError::NoSuchFact { id: _ } => StatusClass::NotFound,
            GetFactError::UnexpectedError { inner: _ } => StatusClass::InternalError,
        };
        AppError { status_class, details: e.message() }
    }

    /// Maps a random lookup failure: an empty store to "not found", a
    /// storage failure to "internal error".
    pub fn from_get_random_fact_error(e: &GetRandomFactError) -> (r: AppError)
        ensures
            r.status_class == match e {
                GetRandomFactError::Empty => StatusClass::NotFound,
                GetRandomFactError::UnexpectedError { inner: _ } => StatusClass::InternalError,
            },
            r.details@ == e.spec_message(),
    {
        let status_class = match e {
            GetRandomFactError::Empty => StatusClass::NotFound,
            GetRandomFactError::UnexpectedError { inner: _ } => StatusClass::InternalError,
        };
        AppError { status_class, details: e.message() }
    }

    /// Maps a create failure: any storage failure to "internal error".
    pub fn from_create_fact_error(e: &CreateFactError) -> (r: AppError)
        ensures
            r.status_class == StatusClass::InternalError,
            r.details@ == e.spec_message(),
    {
        AppError { status_class: StatusClass::InternalError, details: e.message() }
    }

    /// Maps a delete failure: a missing fact to "not found", a storage
    /// failure to "internal error".
    pub fn from_delete_fact_error(e: &DeleteFactError) -> (r: AppError)
        ensures
            r.status_class == match e {
                DeleteFactError::NoSuchFact { id: _ } => StatusClass::NotFound,
                DeleteFactError::UnexpectedError { inner: _ } => StatusClass::InternalError,
            },
            r.details@ == e.spec_message(),
    {
        let status_class = match e {
            DeleteFactError::NoSuchFact { id: _ } => StatusClass::NotFound,
            DeleteFactError::UnexpectedError { inner: _ } => StatusClass::InternalError,
        };
        AppError { status_class, details: e.message() }
    }

    /// Maps a malformed create payload to the "unprocessable input" class.
    pub fn from_create_fact_request_error(e: &CreateFactRequestError) -> (r: AppError)
        ensures
            r.status_class == StatusClass::UnprocessableInput,
            r.details@ == e.spec_message(),
    {
        AppError { status_class: StatusClass::UnprocessableInput, details: e.message() }
    }

    /// Maps a malformed identifier to the "unprocessable input" class.
    pub fn from_fact_id_error(e: &FactIdError) -> (r: AppError)
        ensures
            r.status_class == StatusClass::UnprocessableInput,
            r.details@ == e.spec_message(),
    {
        AppError { status_class: StatusClass::UnprocessableInput, details: e.message() }
    }

    /// The response to a mutation request whose credential check failed.
    pub fn forbidden() -> (r: AppError)
        ensures
            r.status_class == StatusClass::Forbidden,
            r.details@ == "Invalid credentials"@,
    {
        AppError { status_class: StatusClass::Forbidden, details: "Invalid credentials".to_owned() }
    }
}

} // verus!
