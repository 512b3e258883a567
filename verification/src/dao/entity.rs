//! The stored entity and its validating builder.

use vstd::prelude::*;
use crate::repository::models::byte_len;

verus! {

/// A stored title/body pair with its identifier, obtainable only through
/// [`Builder::build`], which validates every field.
#[derive(Debug)]
pub struct Entity {
    id: u64,
    title: String,
    body: String,
}

impl Clone for Entity {
    fn clone(&self) -> (r: Self)
        ensures
            r == *self,
    {
        Entity { id: self.id, title: self.title.clone(), body: self.body.clone() }
    }
}

impl PartialEq for Entity {
    fn eq(&self, other: &Self) -> bool {
        self.id == other.id && self.title == other.title && self.body == other.body
    }
}

impl vstd::std_specs::cmp::PartialEqSpecImpl for Entity {
    open spec fn obeys_eq_spec() -> bool {
        true
    }

    open spec fn eq_spec(&self, other: &Self) -> bool {
        self.spec_id() == other.spec_id() && self.spec_title() == other.spec_title()
            && self.spec_body() == other.spec_body()
    }
}

impl Entity {
    pub closed spec fn spec_id(&self) -> u64 {
        self.id
    }

    pub closed spec fn spec_title(&self) -> Seq<char> {
        self.title@
    }

    pub closed spec fn spec_body(&self) -> Seq<char> {
        self.body@
    }

    /// The entity invariant enforced by the builder.
    pub open spec fn wf(&self) -> bool {
        &&& self.spec_id() > 0
        &&& 1 <= byte_len(self.spec_title()) <= 64
        &&& 1 <= byte_len(self.spec_body()) <= 2048
    }

    pub fn id(&self) -> (r: u64)
        ensures
            r == self.spec_id(),
    {
        self.id
    }

    pub fn title(&self) -> (r: &str)
        ensures
            r@ == self.spec_title(),
    {
        self.title.as_str()
    }

    pub fn body(&self) -> (r: &str)
        ensures
            r@ == self.spec_body(),
    {
        self.body.as_str()
    }
}

/// Collects the fields of an [`Entity`] and validates them all on `build`.
#[derive(Debug)]
pub struct Builder {
    id: Option<u64>,
    title: Option<String>,
    body: Option<String>,
}

/// The error of `Builder::build`: the first failing check, in the order
/// id set, title set, body set, id positive, title bounds, body bounds.
#[derive(Clone, Copy, Debug, PartialEq, Eq, Structural)]
pub enum BuilderError {
    IdNotSet,
    IdLessOrEqualsZero,
    TitleNotSet,
    TitleTooLong { length: usize },
    TitleIsEmpty,
    BodyNotSet,
    BodyTooLong { length: usize },
    BodyIsEmpty,
}

impl Default for Builder {
    fn default() -> (r: Self)
        ensures
            r.spec_id() is None,
            r.spec_title() is None,
            r.spec_body() is None,
    {
        Builder { id: None, title: None, body: None }
    }
}

impl Builder {
    pub closed spec fn spec_id(&self) -> Option<u64> {
        self.id
    }

    pub closed spec fn spec_title(&self) -> Option<String> {
        self.title
    }

    pub closed spec fn spec_body(&self) -> Option<String> {
        self.body
    }

    /// The identifier set so far, if any.
    pub fn get_id(&self) -> (r: Option<u64>)
        ensures
            r == self.spec_id(),
    {
        self.id
    }

    /// The title set so far, if any.
    pub fn get_title(&self) -> (r: &Option<String>)
        ensures
            *r == self.spec_title(),
    {
        &self.title
    }

    /// The body set so far, if any.
    pub fn get_body(&self) -> (r: &Option<String>)
        ensures
            *r == self.spec_body(),
    {
        &self.body
    }

    /// A builder with no field set.
    pub fn new() -> (r: Self)
        ensures
            r.spec_id() is None,
            r.spec_title() is None,
            r.spec_body() is None,
    {
        Builder::default()
    }

    /// Sets the identifier.
    pub fn id(self, id: u64) -> (r: Self)
        ensures
            r.spec_id() == Some(id),
            r.spec_title() == self.spec_title(),
            r.spec_body() == self.spec_body(),
    {
        Builder { id: Some(id), ..self }
    }

    /// Sets the title.
    pub fn title(self, title: String) -> (r: Self)
        ensures
            r.spec_id() == self.spec_id(),
            r.spec_title() == Some(title),
            r.spec_body() == self.spec_body(),
    {
        Builder { title: Some(title), ..self }
    }

    /// Sets the body.
    pub fn body(self, body: String) -> (r: Self)
        ensures
            r.spec_id() == self.spec_id(),
            r.spec_title() == self.spec_title(),
            r.spec_body() == Some(body),
    {
        Builder { body: Some(body), ..self }
    }

    /// Validates every field and assembles the entity, reporting the first
    /// failing check.
    pub fn build(self) -> (r: Result<Entity, BuilderError>)
        ensures
            match r {
                Ok(e) => {
                    &&& self.spec_id() matches Some(id) && id > 0 && e.spec_id() == id
                    &&& self.spec_title() matches Some(t) && 1 <= byte_len(t@) <= 64
                        && e.spec_title() == t@
                    &&& self.spec_body() matches Some(b) && 1 <= byte_len(b@) <= 2048
                        && e.spec_body() == b@
                    &&& e.wf()
                },
                Err(BuilderError::IdNotSet) => self.spec_id() is None,
                Err(BuilderError::TitleNotSet) => self.spec_id() is Some && self.spec_title()
                    is None,
                Err(BuilderError::BodyNotSet) => self.spec_id() is Some && self.spec_title()
                    is Some && self.spec_body() is None,
                Err(BuilderError::IdLessOrEqualsZero) => {
                    &&& self.spec_id() == Some(0u64)
                    &&& self.spec_title() is Some
                    &&& self.spec_body() is Some
                },
                Err(BuilderError::TitleIsEmpty) => {
                    &&& self.spec_id() matches Some(id) && id > 0
                    &&& self.spec_title() matches Some(t) && byte_len(t@) == 0
                    &&& self.spec_body() is Some
                },
                Err(BuilderError::TitleTooLong { length }) => {
                    &&& self.spec_id() matches Some(id) && id > 0
                    &&& self.spec_title() matches Some(t) && byte_len(t@) > 64 && length == byte_len(
                        t@,
                    )
                    &&& self.spec_body() is Some
                },
                Err(BuilderError::BodyIsEmpty) => {
                    &&& self.spec_id() matches Some(id) && id > 0
                    &&& self.spec_title() matches Some(t) && 1 <= byte_len(t@) <= 64
                    &&& self.spec_body() matches Some(b) && byte_len(b@) == 0
                },
                Err(BuilderError::BodyTooLong { length }) => {
                    &&& self.spec_id() matches Some(id) && id > 0
                    &&& self.spec_title() matches Some(t) && 1 <= byte_len(t@) <= 64
                    &&& self.spec_body() matches Some(b) && byte_len(b@) > 2048 && length
                        == byte_len(b@)
                },
            },
    {
        let id = match self.id {
            Some(id) => id,
            None => {
                return Err(BuilderError::IdNotSet);
            },
        };
        let title = match self.title {
            Some(title) => title,
            None => {
                return Err(BuilderError::TitleNotSet);
            },
        };
        let body = match self.body {
            Some(body) => body,
            None => {
                return Err(BuilderError::BodyNotSet);
            },
        };

        if id == 0 {
            return Err(BuilderError::IdLessOrEqualsZero);
        }

        let title_length = title.as_str().as_bytes().len();
        if title_length == 0 {
            return Err(BuilderError::TitleIsEmpty);
        }
        if title_length > 64 {
            return Err(BuilderError::TitleTooLong { length: title_length });
        }

        let body_length = body.as_str().as_bytes().len();
        if body_length == 0 {
            return Err(BuilderError::BodyIsEmpty);
        }
        if body_length > 2048 {
            return Err(BuilderError::BodyTooLong { length: body_length });
        }

        Ok(Entity { id, title, body })
    }
}

} // verus!
