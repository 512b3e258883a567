//! The data-access layer: the stored entity, its validating builder, and the
//! contract that every entity store implements.

use vstd::prelude::*;

pub mod entity;
pub mod errors;
pub mod hash_map;
pub mod mocked;

use entity::Entity;
use errors::{GetError, GetRandomError};

verus! {

/// The abstract contract of an entity store: every backend states, through
/// its own postcondition predicates, exactly what `get` and `get_random`
/// return.
pub trait Dao: Sized {
    /// What holds of the result of `get`.
    spec fn get_post(&self, id: u64, r: Result<Entity, GetError>) -> bool;

    /// What holds of the result of `get_random`.
    spec fn get_random_post(&self, r: Result<Entity, GetRandomError>) -> bool;

    /// Looks one entity up by its identifier.
    fn get(&self, id: u64) -> (r: Result<Entity, GetError>)
        ensures
            self.get_post(id, r),
    ;

    /// Picks one stored entity at random.
    fn get_random(&self) -> (r: Result<Entity, GetRandomError>)
        ensures
            self.get_random_post(r),
    ;
}

} // verus!
