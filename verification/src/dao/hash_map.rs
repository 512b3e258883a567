//! The in-memory entity store: a mapping from identifier to entity.

use vstd::prelude::*;
use std::collections::HashMap;

use crate::dao::Dao;
use crate::dao::entity::Entity;
use crate::dao::errors::{GetError, GetRandomError};
use crate::sampling::choose_copied;
use vstd::std_specs::iter::IteratorSpec;

verus! {

/// An entity store backed by a hash map from identifier to entity.
pub struct HashMapDao(HashMap<u64, Entity>);

impl HashMapDao {
    /// The stored table, keyed by identifier.
    pub closed spec fn model(&self) -> Map<u64, Entity> {
        self.0@
    }

    /// Wraps an existing table.
    pub fn new(hash_map: HashMap<u64, Entity>) -> (r: Self)
        ensures
            r.model() == hash_map@,
    {
        HashMapDao(hash_map)
    }

    /// The identifiers of all stored entities, in no particular order.
    fn ids(&self) -> (r: Vec<u64>)
        ensures
            r@.to_set() == self.model().dom(),
            r@.no_duplicates(),
            r@.len() == self.model().dom().len(),
    {
        let ghost ks = vstd::std_specs::hash::spec_keys_iter(&self.0).remaining();
        let mut ids: Vec<u64> = Vec::new();
        for k in it: self.0.keys()
            invariant
                it.seq() == ks,
                ids@.len() == it.index(),
                forall|i: int| 0 <= i < ids@.len() ==> ids@[i] == *ks[i],
        {
            ids.push(*k);
        }
        proof {
            assert(ids@ =~= ks.unref());
        }
        ids
    }
}

impl Dao for HashMapDao {
    open spec fn get_post(&self, id: u64, r: Result<Entity, GetError>) -> bool {
        match r {
            Ok(e) => self.model().contains_key(id) && e == self.model()[id],
            Err(GetError::NoSuchEntity { id: missing }) => !self.model().contains_key(id)
                && missing == id,
        }
    }

    open spec fn get_random_post(&self, r: Result<Entity, GetRandomError>) -> bool {
        match r {
            Ok(e) => exists|k: u64|
                #[trigger] self.model().contains_key(k) && e == self.model()[k],
            Err(GetRandomError::Empty) => self.model().dom().is_empty(),
        }
    }

    fn get(&self, id: u64) -> (r: Result<Entity, GetError>) {
        match self.0.get(&id) {
            Some(e) => Ok(e.clone()),
            None => Err(GetError::NoSuchEntity { id }),
        }
    }

    fn get_random(&self) -> (r: Result<Entity, GetRandomError>) {
        let ids = self.ids();
        match choose_copied(&ids) {
            Some(id) => {
                proof {
                    assert(self.model().dom().contains(id));
                }
                match self.0.get(&id) {
                    Some(e) => Ok(e.clone()),
                    None => Err(GetRandomError::Empty),  // unreachable: the id came from the table
                }
            },
            None => {
                proof {
                    assert(self.model().dom() =~= Set::<u64>::empty());
                }
                Err(GetRandomError::Empty)
            },
        }
    }
}

} // verus!
