//! The closed error sets of the data-access layer.

use vstd::prelude::*;

verus! {

/// The error of `Dao::get`.
#[derive(Clone, Copy, Debug, PartialEq, Eq, Structural)]
pub enum GetError {
    NoSuchEntity { id: u64 },
}

/// The error of `Dao::get_random`.
#[derive(Clone, Copy, Debug, PartialEq, Eq, Structural)]
pub enum GetRandomError {
    Empty,
}

impl GetError {
    /// A human-readable description of the failure.
    pub fn message(&self) -> (r: String)
        ensures
            r@ == self.spec_message(),
    {
        match self {
            GetError::NoSuchEntity { id: _ } => {
                "Entity with that id doesn't exist in our records".to_owned()
            },
        }
    }

    pub open spec fn spec_message(&self) -> Seq<char> {
        match self {
            GetError::NoSuchEntity { id: _ } => "Entity with that id doesn't exist in our records"@,
        }
    }
}

impl GetRandomError {
    /// A human-readable description of the failure.
    pub fn message(&self) -> (r: String)
        ensures
            r@ == self.spec_message(),
    {
        match self {
            GetRandomError::Empty => "Collection is empty, nothing to choose".to_owned(),
        }
    }

    pub open spec fn spec_message(&self) -> Seq<char> {
        match self {
            GetRandomError::Empty => "Collection is empty, nothing to choose"@,
        }
    }
}

} // verus!
