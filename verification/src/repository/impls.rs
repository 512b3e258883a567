//! The storage backends: a mocked repository for demos and health probes,
//! and an in-memory repository that carries the full capability.

use vstd::prelude::*;
use std::collections::HashMap;

use crate::dao::mocked::{lemma_mocked_text_valid, mocked_body, mocked_title};
use crate::repository::FactsRepository;
use crate::repository::errors::{
    CreateFactError,
    DeleteFactError,
    GetFactError,
    GetRandomFactError,
};
use crate::repository::models::{CreateFactRequest, Fact, FactBody, FactId, FactTitle};
use crate::sampling::choose_copied;
use vstd::std_specs::iter::IteratorSpec;

verus! {

/// A stateless repository that answers every read with one fixed fact; not
/// correctness-bearing, used for demos and health probes.
pub struct MockedFactsRepository {}

/// Assembles the fixed fact served by the mocked repository.
fn fixed_fact(id: FactId) -> (r: Fact)
    requires
        id.wf(),
    ensures
        r.spec_id() == id,
        r.spec_title()@ == mocked_title(),
        r.spec_body()@ == mocked_body(),
        r.wf(),
{
    proof {
        lemma_mocked_text_valid();
    }
    let title = FactTitle::new("About smoking").unwrap();
    let body = FactBody::new(
        r#"The phrase "smoking kills" is a direct statement about the severe health risks of tobacco use
Smoking is a leading cause of preventable death globally, leading to cancer, heart disease, stroke, and lung diseases like emphysema"#,
    ).unwrap();
    Fact::from_parts(id, &title, &body)
}

impl FactsRepository for MockedFactsRepository {
    open spec fn wf(&self) -> bool {
        true
    }

    open spec fn get_post(&self, id: FactId, r: Result<Fact, GetFactError>) -> bool {
        match r {
            Ok(f) => f.spec_id() == id && f.spec_title()@ == mocked_title() && f.spec_body()@
                == mocked_body(),
            Err(_) => false,
        }
    }

    open spec fn get_random_post(&self, r: Result<Fact, GetRandomFactError>) -> bool {
        match r {
            Ok(f) => f.spec_id()@ == 42 && f.spec_title()@ == mocked_title() && f.spec_body()@
                == mocked_body(),
            Err(_) => false,
        }
    }

    open spec fn create_post(
        pre: Self,
        post: Self,
        data: CreateFactRequest,
        r: Result<Fact, CreateFactError>,
    ) -> bool {
        match r {
            Ok(f) => f.spec_id()@ == 43 && f.spec_title()@ == mocked_title() && f.spec_body()@
                == mocked_body(),
            Err(_) => false,
        }
    }

    open spec fn delete_post(
        pre: Self,
        post: Self,
        id: FactId,
        r: Result<(), DeleteFactError>,
    ) -> bool {
        match r {
            Ok(_) => id@ != 44 && id@ != 45,
            Err(DeleteFactError::UnexpectedError { inner: _ }) => id@ == 44,
            Err(DeleteFactError::NoSuchFact { id: missing }) => id@ == 45 && missing == id,
        }
    }

    fn get(&self, id: FactId) -> (r: Result<Fact, GetFactError>) {
        Ok(fixed_fact(id))
    }

    fn get_random(&self) -> (r: Result<Fact, GetRandomFactError>) {
        let id = FactId::new(42).unwrap();
        Ok(fixed_fact(id))
    }

    fn create(&mut self, _data: &CreateFactRequest) -> (r: Result<Fact, CreateFactError>) {
        let id = FactId::new(43).unwrap();
        Ok(fixed_fact(id))
    }

    fn delete(&mut self, id: FactId) -> (r: Result<(), DeleteFactError>) {
        if id.value() == 44 {
            Err(DeleteFactError::UnexpectedError { inner: "This should never happen".to_owned() })
        } else if id.value() == 45 {
            Err(DeleteFactError::NoSuchFact { id })
        } else {
            Ok(())
        }
    }
}

/// A durable-in-process repository: a mapping from identifier to fact, with
/// a strictly increasing identifier counter.
pub struct InMemoryFactsRepository {
    facts: HashMap<i32, Fact>,
    next_id: i32,
}

impl InMemoryFactsRepository {
    /// The stored table, keyed by identifier.
    pub closed spec fn model(&self) -> Map<i32, Fact> {
        self.facts@
    }

    /// The identifier the next successful `create` will assign.
    pub closed spec fn spec_next_id(&self) -> i32 {
        self.next_id
    }

    /// An empty repository whose first assigned identifier is 1.
    pub fn new() -> (r: Self)
        ensures
            r.wf(),
            r.model() == Map::<i32, Fact>::empty(),
            r.spec_next_id() == 1,
    {
        InMemoryFactsRepository { facts: HashMap::new(), next_id: 1 }
    }

    /// The identifiers of all stored facts, in no particular order.
    fn ids(&self) -> (r: Vec<i32>)
        ensures
            r@.to_set() == self.model().dom(),
            r@.no_duplicates(),
            r@.len() == self.model().dom().len(),
    {
        let ghost ks = vstd::std_specs::hash::spec_keys_iter(&self.facts).remaining();
        let mut ids: Vec<i32> = Vec::new();
        for k in it: self.facts.keys()
            invariant
                it.seq() == ks,
                ids@.len() == it.index(),
                forall|i: int| 0 <= i < ids@.len() ==> ids@[i] == *ks[i],
        {
            ids.push(*k);
        }
        proof {
            assert(ids@ =~= ks.unref());
        }
        ids
    }
}

impl FactsRepository for InMemoryFactsRepository {
    /// Every stored fact is valid, is keyed by its own identifier, and lies
    /// strictly below the next identifier to assign.
    open spec fn wf(&self) -> bool {
        &&& self.spec_next_id() >= 1
        &&& forall|k: i32| #[trigger] self.model().contains_key(k) ==> {
            &&& self.model()[k].spec_id()@ == k
            &&& self.model()[k].wf()
            &&& 0 < k < self.spec_next_id()
        }
    }

    open spec fn get_post(&self, id: FactId, r: Result<Fact, GetFactError>) -> bool {
        match r {
            Ok(f) => self.model().contains_key(id@) && f == self.model()[id@],
            Err(GetFactError::NoSuchFact { id: missing }) => missing == id
                && !self.model().contains_key(id@),
            Err(GetFactError::UnexpectedError { inner: _ }) => false,
        }
    }

    open spec fn get_random_post(&self, r: Result<Fact, GetRandomFactError>) -> bool {
        match r {
            Ok(f) => exists|k: i32| #[trigger] self.model().contains_key(k) && f == self.model()[k],
            Err(GetRandomFactError::Empty) => self.model().dom() =~= Set::<i32>::empty(),
            Err(GetRandomFactError::UnexpectedError { inner: _ }) => false,
        }
    }

    open spec fn create_post(
        pre: Self,
        post: Self,
        data: CreateFactRequest,
        r: Result<Fact, CreateFactError>,
    ) -> bool {
        match r {
            Ok(f) => {
                &&& pre.spec_next_id() < i32::MAX
                &&& f.spec_id()@ == pre.spec_next_id()
                &&& f.spec_title()@ == data.spec_title()@
                &&& f.spec_body()@ == data.spec_body()@
                &&& post.model() == pre.model().insert(pre.spec_next_id(), f)
                &&& post.spec_next_id() == pre.spec_next_id() + 1
            },
            Err(CreateFactError::UnexpectedError { inner: _ }) => {
                &&& pre.spec_next_id() == i32::MAX
                &&& post.model() == pre.model()
                &&& post.spec_next_id() == pre.spec_next_id()
            },
        }
    }

    open spec fn delete_post(
        pre: Self,
        post: Self,
        id: FactId,
        r: Result<(), DeleteFactError>,
    ) -> bool {
        match r {
            Ok(_) => {
                &&& pre.model().contains_key(id@)
                &&& post.model() == pre.model().remove(id@)
                &&& post.spec_next_id() == pre.spec_next_id()
            },
            Err(DeleteFactError::NoSuchFact { id: missing }) => {
                &&& missing == id
                &&& !pre.model().contains_key(id@)
                &&& post.model() =~= pre.model()
                &&& post.spec_next_id() == pre.spec_next_id()
            },
            Err(DeleteFactError::UnexpectedError { inner: _ }) => false,
        }
    }

    fn get(&self, id: FactId) -> (r: Result<Fact, GetFactError>) {
        match self.facts.get(&id.value()) {
            Some(f) => Ok(f.clone()),
            None => Err(GetFactError::NoSuchFact { id }),
        }
    }

    fn get_random(&self) -> (r: Result<Fact, GetRandomFactError>) {
        let ids = self.ids();
        match choose_copied(&ids) {
            Some(id) => {
                proof {
                    assert(self.model().dom().contains(id));
                }
                match self.facts.get(&id) {
                    Some(f) => Ok(f.clone()),
                    None => Err(GetRandomFactError::Empty),  // unreachable: the id came from the table
                }
            },
            None => {
                proof {
                    assert(self.model().dom() =~= Set::<i32>::empty());
                }
                Err(GetRandomFactError::Empty)
            },
        }
    }

    fn create(&mut self, data: &CreateFactRequest) -> (r: Result<Fact, CreateFactError>) {
        if self.next_id == i32::MAX {
            return Err(
                CreateFactError::UnexpectedError {
                    inner: "The identifier space is exhausted".to_owned(),
                },
            );
        }
        let id = FactId::new(self.next_id).unwrap();
        let fact = Fact::from_parts(id, data.title(), data.body());
        self.facts.insert(self.next_id, fact.clone());
        self.next_id = self.next_id + 1;
        proof {
            assert forall|k: i32| #[trigger] self.model().contains_key(k) implies {
                &&& self.model()[k].spec_id()@ == k
                &&& self.model()[k].wf()
                &&& 0 < k < self.spec_next_id()
            } by {
                if k == old(self).spec_next_id() {
                    assert(self.model()[k] == fact);
                } else {
                    assert(old(self).model().contains_key(k));
                }
            }
        }
        Ok(fact)
    }

    fn delete(&mut self, id: FactId) -> (r: Result<(), DeleteFactError>) {
        match self.facts.remove(&id.value()) {
            Some(_) => Ok(()),
            None => Err(DeleteFactError::NoSuchFact { id }),
        }
    }
}

/// A raw row as the SQL-backed repository reads it from storage, before
/// validation.  Reconstruction runs the full validators: a stored row that
/// fails them is a storage anomaly, and the repository reports it as an
/// unexpected error, never as a client problem.
#[derive(Debug)]
pub struct SqlxFact {
    pub id: i32,
    pub title: String,
    pub body: String,
}

impl SqlxFact {
    /// Validates the raw row into a fact, failing with the first invalid
    /// field's wrapped error.
    pub fn to_fact(&self) -> (r: Result<Fact, crate::repository::models::FactError>)
        ensures
            match r {
                Ok(f) => {
                    &&& self.id > 0
                    &&& crate::repository::models::title_ok(self.title@)
                    &&& crate::repository::models::body_ok(self.body@)
                    &&& f.spec_id()@ == self.id
                    &&& f.spec_title()@ == self.title@
                    &&& f.spec_body()@ == self.body@
                    &&& f.wf()
                },
                Err(_) => !(self.id > 0 && crate::repository::models::title_ok(self.title@)
                    && crate::repository::models::body_ok(self.body@)),
            },
    {
        Fact::new(self.id, self.title.as_str(), self.body.as_str())
    }
}

/// Law: a round trip through the in-memory backend is lossless.  Whenever
/// `create` stored the fact `f` for a request, a `get` on `f`'s identifier
/// against the resulting state returns exactly `f`, whose title and body
/// equal the request's.
pub proof fn lemma_create_then_get(
    pre: InMemoryFactsRepository,
    post: InMemoryFactsRepository,
    data: CreateFactRequest,
    f: Fact,
)
    requires
        InMemoryFactsRepository::create_post(pre, post, data, Ok(f)),
    ensures
        post.get_post(f.spec_id(), Ok(f)),
        f.spec_title()@ == data.spec_title()@,
        f.spec_body()@ == data.spec_body()@,
{
}

/// Law: `create` assigns a fresh identifier.  The key a successful
/// `create` stores under was not present before the call, so no stored
/// fact is ever overwritten.
pub proof fn lemma_create_assigns_fresh_id(
    pre: InMemoryFactsRepository,
    post: InMemoryFactsRepository,
    data: CreateFactRequest,
    f: Fact,
)
    requires
        pre.wf(),
        InMemoryFactsRepository::create_post(pre, post, data, Ok(f)),
    ensures
        !pre.model().contains_key(f.spec_id()@),
        post.model().contains_key(f.spec_id()@),
{
    assert(!pre.model().contains_key(pre.spec_next_id()));
}

/// Law: assigned identifiers are strictly increasing.  Two successful
/// `create` calls in sequence store under strictly increasing keys.
pub proof fn lemma_create_ids_increase(
    s0: InMemoryFactsRepository,
    s1: InMemoryFactsRepository,
    s2: InMemoryFactsRepository,
    d1: CreateFactRequest,
    d2: CreateFactRequest,
    f1: Fact,
    f2: Fact,
)
    requires
        InMemoryFactsRepository::create_post(s0, s1, d1, Ok(f1)),
        InMemoryFactsRepository::create_post(s1, s2, d2, Ok(f2)),
    ensures
        f2.spec_id()@ > f1.spec_id()@,
{
}

/// Law: failure of a repeated `delete` is stable.  Whatever the first
/// `delete` of an identifier returned, a second `delete` of the same
/// identifier against the resulting state must fail with `NoSuchFact`,
/// never silently succeed.
pub proof fn lemma_second_delete_fails(
    s0: InMemoryFactsRepository,
    s1: InMemoryFactsRepository,
    s2: InMemoryFactsRepository,
    id: FactId,
    r1: Result<(), DeleteFactError>,
    r2: Result<(), DeleteFactError>,
)
    requires
        InMemoryFactsRepository::delete_post(s0, s1, id, r1),
        InMemoryFactsRepository::delete_post(s1, s2, id, r2),
    ensures
        r2 == Err::<(), DeleteFactError>(DeleteFactError::NoSuchFact { id }),
        s2.model() =~= s1.model(),
{
    assert(!s1.model().contains_key(id@));
}

} // verus!
