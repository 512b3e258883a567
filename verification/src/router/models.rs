//! The serialisable images of a fact and of a create request.

use vstd::prelude::*;
use crate::repository::models::{
    body_ok,
    byte_len,
    CreateFactRequest,
    CreateFactRequestError,
    Fact,
    FactBody,
    FactTitle,
    title_ok,
};

verus! {

/// What a fact read returns over the wire.
#[derive(Debug)]
pub struct HttpFactResponse {
    id: i32,
    title: String,
    body: String,
}

impl HttpFactResponse {
    pub closed spec fn spec_id(&self) -> i32 {
        self.id
    }

    pub closed spec fn spec_title(&self) -> Seq<char> {
        self.title@
    }

    pub closed spec fn spec_body(&self) -> Seq<char> {
        self.body@
    }

    /// Copies a fact into its wire image.
    pub fn from_fact(f: &Fact) -> (r: Self)
        ensures
            r.spec_id() == f.spec_id()@,
            r.spec_title() == f.spec_title()@,
            r.spec_body() == f.spec_body()@,
    {
        HttpFactResponse {
            id: f.id().value(),
            title: f.title().as_str().to_owned(),
            body: f.body().as_str().to_owned(),
        }
    }

    pub fn id(&self) -> (r: i32)
        ensures
            r == self.spec_id(),
    {
        self.id
    }

    pub fn title(&self) -> (r: &str)
        ensures
            r@ == self.spec_title(),
    {
        self.title.as_str()
    }

    pub fn body(&self) -> (r: &str)
        ensures
            r@ == self.spec_body(),
    {
        self.body.as_str()
    }
}

/// The raw payload of a create request, before validation.
#[derive(Debug)]
pub struct HttpCreateFactRequestBody {
    title: String,
    body: String,
}

impl HttpCreateFactRequestBody {
    pub closed spec fn spec_title(&self) -> Seq<char> {
        self.title@
    }

    pub closed spec fn spec_body(&self) -> Seq<char> {
        self.body@
    }

    /// Wraps a raw title and body as received over the wire.
    pub fn new(title: String, body: String) -> (r: Self)
        ensures
            r.spec_title() == title@,
            r.spec_body() == body@,
    {
        HttpCreateFactRequestBody { title, body }
    }

    pub fn title(&self) -> (r: &str)
        ensures
            r@ == self.spec_title(),
    {
        self.title.as_str()
    }

    pub fn body(&self) -> (r: &str)
        ensures
            r@ == self.spec_body(),
    {
        self.body.as_str()
    }

    /// Validates the payload into a write intent, reporting the first
    /// failing field, title first.
    pub fn to_create_fact_request(&self) -> (r: Result<CreateFactRequest, CreateFactRequestError>)
        ensures
            match r {
                Ok(req) => {
                    &&& title_ok(self.spec_title())
                    &&& body_ok(self.spec_body())
                    &&& req.spec_title()@ == self.spec_title()
                    &&& req.spec_body()@ == self.spec_body()
                    &&& req.wf()
                },
                Err(CreateFactRequestError::InvalidTitle { inner }) => !title_ok(self.spec_title())
                    && match inner {
                    crate::repository::models::FactTitleError::IsEmpty => byte_len(
                        self.spec_title(),
                    ) == 0,
                    crate::repository::models::FactTitleError::TooLong { length } => byte_len(
                        self.spec_title(),
                    ) > 64 && length == byte_len(self.spec_title()),
                },
                Err(CreateFactRequestError::InvalidBody { inner }) => title_ok(self.spec_title())
                    && !body_ok(self.spec_body()) && match inner {
                    crate::repository::models::FactBodyError::IsEmpty => byte_len(self.spec_body())
                        == 0,
                    crate::repository::models::FactBodyError::TooLong { length } => byte_len(
                        self.spec_body(),
                    ) > 2048 && length == byte_len(self.spec_body()),
                },
            },
    {
        let title = match FactTitle::new(self.title.as_str()) {
            Ok(title) => title,
            Err(inner) => {
                return Err(CreateFactRequestError::InvalidTitle { inner });
            },
        };
        let body = match FactBody::new(self.body.as_str()) {
            Ok(body) => body,
            Err(inner) => {
                return Err(CreateFactRequestError::InvalidBody { inner });
            },
        };
        Ok(CreateFactRequest::new(&title, &body))
    }
}

} // verus!
