//! The serialisable image of a stored entity.

use vstd::prelude::*;
use crate::dao::entity::Entity;

verus! {

/// What an entity lookup returns over the wire.
#[derive(Debug)]
pub struct HttpEntity {
    id: u64,
    title: String,
    body: String,
}

impl HttpEntity {
    pub closed spec fn spec_id(&self) -> u64 {
        self.id
    }

    pub closed spec fn spec_title(&self) -> Seq<char> {
        self.title@
    }

    pub closed spec fn spec_body(&self) -> Seq<char> {
        self.body@
    }

    /// Copies an entity into its wire image.
    pub fn from_entity(e: &Entity) -> (r: Self)
        ensures
            r.spec_id() == e.spec_id(),
            r.spec_title() == e.spec_title(),
            r.spec_body() == e.spec_body(),
    {
        HttpEntity { id: e.id(), title: e.title().to_owned(), body: e.body().to_owned() }
    }

    pub fn id(&self) -> (r: u64)
        ensures
            r == self.spec_id(),
    {
        self.id
    }

    pub fn title(&self) -> (r: &str)
        ensures
            r@ == self.spec_title(),
    {
        self.title.as_str()
    }

    pub fn body(&self) -> (r: &str)
        ensures
            r@ == self.spec_body(),
    {
        self.body.as_str()
    }
}

} // verus!
