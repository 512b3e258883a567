//! The closed error sets of the repository capability, one per operation.
//!
//! `UnexpectedError` wraps any lower-level storage failure as an opaque
//! string: storage-specific error types never leak past the repository
//! boundary.

use vstd::prelude::*;
use crate::repository::models::FactId;

verus! {

/// The error of `FactsRepository::get`.
#[derive(Debug)]
pub enum GetFactError {
    NoSuchFact { id: FactId },
    UnexpectedError { inner: String },
}

/// The error of `FactsRepository::get_random`.
#[derive(Debug)]
pub enum GetRandomFactError {
    Empty,
    UnexpectedError { inner: String },
}

/// The error of `FactsRepository::create`.
#[derive(Debug)]
pub enum CreateFactError {
    UnexpectedError { inner: String },
}

/// The error of `FactsRepository::delete`.
#[derive(Debug)]
pub enum DeleteFactError {
    NoSuchFact { id: FactId },
    UnexpectedError { inner: String },
}

impl GetFactError {
    /// A human-readable description of the failure; an unexpected error
    /// carries the wrapped storage failure.
    pub fn message(&self) -> (r: String)
        ensures
            r@ == self.spec_message(),
    {
        match self {
            GetFactError::NoSuchFact { id: _ } => {
                "Fact with that id doesn't exist in our records".to_owned()
            },
            GetFactError::UnexpectedError { inner } => inner.clone(),
        }
    }

    pub open spec fn spec_message(&self) -> Seq<char> {
        match self {
            GetFactError::NoSuchFact { id: _ } => "Fact with that id doesn't exist in our records"@,
            GetFactError::UnexpectedError { inner } => inner@,
        }
    }
}

impl GetRandomFactError {
    /// A human-readable description of the failure; an unexpected error
    /// carries the wrapped storage failure.
    pub fn message(&self) -> (r: String)
        ensures
            r@ == self.spec_message(),
    {
        match self {
            GetRandomFactError::Empty => "Collection is empty, nothing to choose".to_owned(),
            GetRandomFactError::UnexpectedError { inner } => inner.clone(),
        }
    }

    pub open spec fn spec_message(&self) -> Seq<char> {
        match self {
            GetRandomFactError::Empty => "Collection is empty, nothing to choose"@,
            GetRandomFactError::UnexpectedError { inner } => inner@,
        }
    }
}

impl CreateFactError {
    /// A human-readable description of the failure: the wrapped storage
    /// failure.
    pub fn message(&self) -> (r: String)
        ensures
            r@ == self.spec_message(),
    {
        match self {
            CreateFactError::UnexpectedError { inner } => inner.clone(),
        }
    }

    pub open spec fn spec_message(&self) -> Seq<char> {
        match self {
            CreateFactError::UnexpectedError { inner } => inner@,
        }
    }
}

impl DeleteFactError {
    /// A human-readable description of the failure; an unexpected error
    /// carries the wrapped storage failure.
    pub fn message(&self) -> (r: String)
        ensures
            r@ == self.spec_message(),
    {
        match self {
            DeleteFactError::NoSuchFact { id: _ } => {
                "Fact with that id doesn't exist in our records".to_owned()
            },
            DeleteFactError::UnexpectedError { inner } => inner.clone(),
        }
    }

    pub open spec fn spec_message(&self) -> Seq<char> {
        match self {
            DeleteFactError::NoSuchFact {
                id: _,
            } => "Fact with that id doesn't exist in our records"@,
            DeleteFactError::UnexpectedError { inner } => inner@,
        }
    }
}

impl PartialEq for GetFactError {
    fn eq(&self, other: &Self) -> bool {
        match (self, other) {
            (GetFactError::NoSuchFact { id: a }, GetFactError::NoSuchFact { id: b }) => *a == *b,
            (
                GetFactError::UnexpectedError { inner: a },
                GetFactError::UnexpectedError { inner: b },
            ) => *a == *b,
            _ => false,
        }
    }
}

impl vstd::std_specs::cmp::PartialEqSpecImpl for GetFactError {
    open spec fn obeys_eq_spec() -> bool {
        true
    }

    open spec fn eq_spec(&self, other: &Self) -> bool {
        match (self, other) {
            (GetFactError::NoSuchFact { id: a }, GetFactError::NoSuchFact { id: b }) => a == b,
            (
                GetFactError::UnexpectedError { inner: a },
                GetFactError::UnexpectedError { inner: b },
            ) => a@ == b@,
            _ => false,
        }
    }
}

impl PartialEq for GetRandomFactError {
    fn eq(&self, other: &Self) -> bool {
        match (self, other) {
            (GetRandomFactError::Empty, GetRandomFactError::Empty) => true,
            (
                GetRandomFactError::UnexpectedError { inner: a },
                GetRandomFactError::UnexpectedError { inner: b },
            ) => *a == *b,
            _ => false,
        }
    }
}

impl vstd::std_specs::cmp::PartialEqSpecImpl for GetRandomFactError {
    open spec fn obeys_eq_spec() -> bool {
        true
    }

    open spec fn eq_spec(&self, other: &Self) -> bool {
        match (self, other) {
            (GetRandomFactError::Empty, GetRandomFactError::Empty) => true,
            (
                GetRandomFactError::UnexpectedError { inner: a },
                GetRandomFactError::UnexpectedError { inner: b },
            ) => a@ == b@,
            _ => false,
        }
    }
}

impl PartialEq for CreateFactError {
    fn eq(&self, other: &Self) -> bool {
        match (self, other) {
            (
                CreateFactError::UnexpectedError { inner: a },
                CreateFactError::UnexpectedError { inner: b },
            ) => *a == *b,
        }
    }
}

impl vstd::std_specs::cmp::PartialEqSpecImpl for CreateFactError {
    open spec fn obeys_eq_spec() -> bool {
        true
    }

    open spec fn eq_spec(&self, other: &Self) -> bool {
        match (self, other) {
            (
                CreateFactError::UnexpectedError { inner: a },
                CreateFactError::UnexpectedError { inner: b },
            ) => a@ == b@,
        }
    }
}

impl PartialEq for DeleteFactError {
    fn eq(&self, other: &Self) -> bool {
        match (self, other) {
            (DeleteFactError::NoSuchFact { id: a }, DeleteFactError::NoSuchFact { id: b }) => *a
                == *b,
            (
                DeleteFactError::UnexpectedError { inner: a },
                DeleteFactError::UnexpectedError { inner: b },
            ) => *a == *b,
            _ => false,
        }
    }
}

impl vstd::std_specs::cmp::PartialEqSpecImpl for DeleteFactError {
    open spec fn obeys_eq_spec() -> bool {
        true
    }

    open spec fn eq_spec(&self, other: &Self) -> bool {
        match (self, other) {
            (DeleteFactError::NoSuchFact { id: a }, DeleteFactError::NoSuchFact { id: b }) => a
                == b,
            (
                DeleteFactError::UnexpectedError { inner: a },
                DeleteFactError::UnexpectedError { inner: b },
            ) => a@ == b@,
            _ => false,
        }
    }
}

} // verus!
