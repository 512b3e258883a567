//! The decision logic of every endpoint, as pure functions from the store
//! and the already-performed credential check to a response.
//!
//! The surrounding HTTP framing parses the raw request, runs the opaque
//! credential verifier for mutations, calls one of these cores, and writes
//! the response out; everything it decides is decided here.

use vstd::prelude::*;

use crate::dao::Dao;
use crate::dao::entity::Entity;
use crate::dao::errors::{GetError, GetRandomError};
use crate::repository::FactsRepository;
use crate::repository::errors::{CreateFactError, DeleteFactError};
use crate::repository::models::{body_ok, CreateFactRequest, Fact, FactId, title_ok};
use crate::router::entity::HttpEntity;
use crate::router::errors::{AppError, StatusClass};
use crate::router::models::{HttpCreateFactRequestBody, HttpFactResponse};

verus! {

/// The route table of the service; the HTTP framing turns it into real
/// routes around the cores below.
pub struct AppRouter {}

impl Default for AppRouter {
    fn default() -> (r: Self)
        ensures
            r == (AppRouter {  }),
    {
        AppRouter {  }
    }
}

/// Serves a lookup by identifier: the stored entity, or the store's error
/// mapped to its response class.
pub fn get_fact_core<D: Dao>(dao: &D, id: u64) -> (r: Result<HttpEntity, AppError>)
    ensures
        match r {
            Ok(he) => exists|e: Entity|
                {
                    &&& #[trigger] dao.get_post(id, Ok(e))
                    &&& he.spec_id() == e.spec_id()
                    &&& he.spec_title() == e.spec_title()
                    &&& he.spec_body() == e.spec_body()
                },
            Err(ae) => exists|err: GetError|
                {
                    &&& #[trigger] dao.get_post(id, Err(err))
                    &&& ae.status_class == StatusClass::NotFound
                    &&& ae.details@ == err.spec_message()
                },
        },
{
    match dao.get(id) {
        Ok(e) => Ok(HttpEntity::from_entity(&e)),
        Err(err) => Err(AppError::from_get_error(&err)),
    }
}

/// Serves a random lookup: some stored entity, or the store's error mapped
/// to its response class.
pub fn get_random_fact_core<D: Dao>(dao: &D) -> (r: Result<HttpEntity, AppError>)
    ensures
        match r {
            Ok(he) => exists|e: Entity|
                {
                    &&& #[trigger] dao.get_random_post(Ok(e))
                    &&& he.spec_id() == e.spec_id()
                    &&& he.spec_title() == e.spec_title()
                    &&& he.spec_body() == e.spec_body()
                },
            Err(ae) => exists|err: GetRandomError|
                {
                    &&& #[trigger] dao.get_random_post(Err(err))
                    &&& ae.status_class == StatusClass::NotFound
                    &&& ae.details@ == err.spec_message()
                },
        },
{
    match dao.get_random() {
        Ok(e) => Ok(HttpEntity::from_entity(&e)),
        Err(err) => Err(AppError::from_get_random_error(&err)),
    }
}

/// The health probe: healthy exactly when a random lookup succeeds.
pub fn health_core<D: Dao>(dao: &D) -> (healthy: bool)
    ensures
        exists|res: Result<Entity, GetRandomError>|
            #[trigger] dao.get_random_post(res) && healthy == res is Ok,
{
    let result = dao.get_random();
    result.is_ok()
}

/// Serves a create request.  Without a valid credential the repository is
/// left untouched and the response is "forbidden"; with one, the payload
/// is validated before it can reach storage, and a valid payload is handed
/// to the repository, whose result is mapped to the response.
pub fn create_fact_core<R: FactsRepository>(
    repo: &mut R,
    credential_ok: bool,
    payload: &HttpCreateFactRequestBody,
) -> (r: Result<HttpFactResponse, AppError>)
    requires
        old(repo).wf(),
    ensures
        final(repo).wf(),
        !credential_ok ==> *final(repo) == *old(repo) && (r matches Err(ae) && ae.status_class
            == StatusClass::Forbidden),
        credential_ok && !(title_ok(payload.spec_title()) && body_ok(payload.spec_body()))
            ==> *final(repo) == *old(repo) && (r matches Err(ae) && ae.status_class
            == StatusClass::UnprocessableInput),
        credential_ok && title_ok(payload.spec_title()) && body_ok(payload.spec_body())
            ==> match r {
            Ok(resp) => exists|req: CreateFactRequest, f: Fact|
                {
                    &&& req.spec_title()@ == payload.spec_title()
                    &&& req.spec_body()@ == payload.spec_body()
                    &&& #[trigger] R::create_post(*old(repo), *final(repo), req, Ok(f))
                    &&& resp.spec_id() == f.spec_id()@
                    &&& resp.spec_title() == f.spec_title()@
                    &&& resp.spec_body() == f.spec_body()@
                },
            Err(ae) => exists|req: CreateFactRequest, err: CreateFactError|
                {
                    &&& req.spec_title()@ == payload.spec_title()
                    &&& req.spec_body()@ == payload.spec_body()
                    &&& #[trigger] R::create_post(*old(repo), *final(repo), req, Err(err))
                    &&& ae.status_class == StatusClass::InternalError
                    &&& ae.details@ == err.spec_message()
                },
        },
{
    if !credential_ok {
        return Err(AppError::forbidden());
    }
    let req = match payload.to_create_fact_request() {
        Ok(req) => req,
        Err(err) => {
            return Err(AppError::from_create_fact_request_error(&err));
        },
    };
    match repo.create(&req) {
        Ok(f) => Ok(HttpFactResponse::from_fact(&f)),
        Err(err) => Err(AppError::from_create_fact_error(&err)),
    }
}

/// Serves a delete request.  Without a valid credential the repository is
/// left untouched and the response is "forbidden"; with one, a
/// non-positive identifier is rejected as unprocessable before it can
/// reach storage, and a valid one is handed to the repository, whose
/// result is mapped to the response.
pub fn delete_fact_core<R: FactsRepository>(repo: &mut R, credential_ok: bool, raw_id: i32) -> (r:
    Result<(), AppError>)
    requires
        old(repo).wf(),
    ensures
        final(repo).wf(),
        !credential_ok ==> *final(repo) == *old(repo) && (r matches Err(ae) && ae.status_class
            == StatusClass::Forbidden),
        credential_ok && raw_id <= 0 ==> *final(repo) == *old(repo) && (r matches Err(ae)
            && ae.status_class == StatusClass::UnprocessableInput),
        credential_ok && raw_id > 0 ==> exists|id: FactId, res: Result<(), DeleteFactError>|
            {
                &&& id@ == raw_id
                &&& #[trigger] R::delete_post(*old(repo), *final(repo), id, res)
                &&& match (r, res) {
                    (Ok(_), Ok(_)) => true,
                    (Err(ae), Err(err)) => {
                        &&& ae.status_class == match err {
                            DeleteFactError::NoSuchFact { id: _ } => StatusClass::NotFound,
                            DeleteFactError::UnexpectedError {
                                inner: _,
                            } => StatusClass::InternalError,
                        }
                        &&& ae.details@ == err.spec_message()
                    },
                    _ => false,
                }
            },
{
    if !credential_ok {
        return Err(AppError::forbidden());
    }
    let id = match FactId::new(raw_id) {
        Ok(id) => id,
        Err(err) => {
            return Err(AppError::from_fact_id_error(&err));
        },
    };
    match repo.delete(id) {
        Ok(_) => Ok(()),
        Err(err) => Err(AppError::from_delete_fact_error(&err)),
    }
}

} // verus!
