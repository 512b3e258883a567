//! The repository layer: validated domain models, the error taxonomy per
//! operation, and the storage contract that every backend implements.

use vstd::prelude::*;

pub mod errors;
pub mod impls;
pub mod models;

use errors::{CreateFactError, DeleteFactError, GetFactError, GetRandomFactError};
use models::{CreateFactRequest, Fact, FactId};

verus! {

/// The abstract storage contract: `get`, `get_random`, `create` and
/// `delete`, implemented polymorphically by every backend.
///
/// Each backend states, through its own postcondition predicates, exactly
/// what every operation returns and how it changes the stored state; the
/// `wf` predicate is the backend's internal invariant, which constructors
/// establish and every operation preserves.
pub trait FactsRepository: Sized {
    /// The backend's internal invariant.
    spec fn wf(&self) -> bool;

    /// What holds of the result of `get`.
    spec fn get_post(&self, id: FactId, r: Result<Fact, GetFactError>) -> bool;

    /// What holds of the result of `get_random`.
    spec fn get_random_post(&self, r: Result<Fact, GetRandomFactError>) -> bool;

    /// How `create` relates the state before, the state after, the request
    /// and the result.
    spec fn create_post(
        pre: Self,
        post: Self,
        data: CreateFactRequest,
        r: Result<Fact, CreateFactError>,
    ) -> bool;

    /// How `delete` relates the state before, the state after, the
    /// identifier and the result.
    spec fn delete_post(pre: Self, post: Self, id: FactId, r: Result<(), DeleteFactError>) -> bool;

    /// Looks one fact up by its identifier.
    fn get(&self, id: FactId) -> (r: Result<Fact, GetFactError>)
        requires
            self.wf(),
            id.wf(),
        ensures
            self.get_post(id, r),
    ;

    /// Picks one stored fact uniformly at random.
    fn get_random(&self) -> (r: Result<Fact, GetRandomFactError>)
        requires
            self.wf(),
        ensures
            self.get_random_post(r),
    ;

    /// Stores the request under a fresh identifier of the backend's choice.
    fn create(&mut self, data: &CreateFactRequest) -> (r: Result<Fact, CreateFactError>)
        requires
            old(self).wf(),
            data.wf(),
        ensures
            final(self).wf(),
            Self::create_post(*old(self), *final(self), *data, r),
    ;

    /// Removes the fact with the given identifier.
    fn delete(&mut self, id: FactId) -> (r: Result<(), DeleteFactError>)
        requires
            old(self).wf(),
            id.wf(),
        ensures
            final(self).wf(),
            Self::delete_post(*old(self), *final(self), id, r),
    ;
}

} // verus!
