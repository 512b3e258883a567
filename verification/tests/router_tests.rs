//! Tests of the endpoint cores and of the error-to-response mapping.

use std::collections::HashMap;

use fake::faker::lorem::en::Sentence;
use fake::Fake;

use facts::dao::entity::{Builder, Entity};
use facts::dao::hash_map::HashMapDao;
use facts::repository::errors::{DeleteFactError, GetFactError, GetRandomFactError};
use facts::repository::impls::InMemoryFactsRepository;
use facts::repository::models::{
    CreateFactRequestError, FactBodyError, FactId, FactIdError, FactTitleError,
};
use facts::repository::FactsRepository;
use facts::router::errors::{AppError, StatusClass};
use facts::router::handlers::{
    create_fact_core, delete_fact_core, get_fact_core, get_random_fact_core, health_core,
};
use facts::router::models::HttpCreateFactRequestBody;
use facts::router::state::AppState;

fn sample_entity(id: u64) -> Entity {
    let title: String = Sentence(2..3).fake();
    let body: String = Sentence(5..10).fake();
    Builder::new().id(id).title(title).body(body).build().unwrap()
}

fn dao_with(entities: Vec<Entity>) -> HashMapDao {
    let mut map = HashMap::new();
    for entity in entities {
        map.insert(entity.id(), entity);
    }
    HashMapDao::new(map)
}

#[test]
fn get_ok() {
    let entity = sample_entity((1..u64::MAX).fake());
    let dao = dao_with(vec![entity.clone()]);

    let response = get_fact_core(&dao, entity.id()).unwrap();

    assert_eq!(entity.id(), response.id());
    assert_eq!(entity.title(), response.title());
    assert_eq!(entity.body(), response.body());
}

#[test]
fn handlers_get_non_existent() {
    let dao = dao_with(vec![]);
    let id: u64 = (1..u64::MAX).fake();

    let err = get_fact_core(&dao, id).unwrap_err();

    assert_eq!(err.status_class, StatusClass::NotFound);
}

#[test]
fn handlers_get_random() {
    let mut entities = Vec::new();
    for id in 1..=10u64 {
        entities.push(sample_entity(id));
    }
    let dao = dao_with(entities);

    get_random_fact_core(&dao).unwrap();
}

#[test]
fn handlers_get_random_from_empty() {
    let dao = dao_with(vec![]);

    let err = get_random_fact_core(&dao).unwrap_err();

    assert_eq!(err.status_class, StatusClass::NotFound);
}

#[test]
fn healthcheck() {
    let mut entities = Vec::new();
    for id in 1..=10u64 {
        entities.push(sample_entity(id));
    }
    let state = AppState {
        dao: dao_with(entities),
    };

    assert!(health_core(&state.dao));
}

#[test]
fn healthcheck_unhealthy_when_empty() {
    let state = AppState { dao: dao_with(vec![]) };

    assert!(!health_core(&state.dao));
}

#[test]
fn forbidden_create_never_reaches_the_repository() {
    let mut repo = InMemoryFactsRepository::new();
    let payload = HttpCreateFactRequestBody::new("foo".to_string(), "bar".to_string());

    let err = create_fact_core(&mut repo, false, &payload).unwrap_err();

    assert_eq!(err.status_class, StatusClass::Forbidden);
    // The repository was never invoked: the store is still empty.
    assert_eq!(repo.get_random(), Err(GetRandomFactError::Empty));
}

#[test]
fn forbidden_delete_never_reaches_the_repository() {
    let mut repo = InMemoryFactsRepository::new();
    let payload = HttpCreateFactRequestBody::new("foo".to_string(), "bar".to_string());
    let created = create_fact_core(&mut repo, true, &payload).unwrap();

    let err = delete_fact_core(&mut repo, false, created.id()).unwrap_err();

    assert_eq!(err.status_class, StatusClass::Forbidden);
    // The repository was never invoked: the fact is still there.
    repo.get(FactId::new(created.id()).unwrap()).unwrap();
}

#[test]
fn create_core_stores_and_echoes_the_fact() {
    let mut repo = InMemoryFactsRepository::new();
    let payload = HttpCreateFactRequestBody::new("foo".to_string(), "bar".to_string());

    let response = create_fact_core(&mut repo, true, &payload).unwrap();

    assert_eq!(response.id(), 1);
    assert_eq!(response.title(), "foo");
    assert_eq!(response.body(), "bar");

    let stored = repo.get(FactId::new(1).unwrap()).unwrap();
    assert_eq!(stored.title().as_str(), "foo");
    assert_eq!(stored.body().as_str(), "bar");
}

#[test]
fn create_core_rejects_invalid_payload() {
    let mut repo = InMemoryFactsRepository::new();
    let payload = HttpCreateFactRequestBody::new(String::new(), "bar".to_string());

    let err = create_fact_core(&mut repo, true, &payload).unwrap_err();

    assert_eq!(err.status_class, StatusClass::UnprocessableInput);
    assert_eq!(repo.get_random(), Err(GetRandomFactError::Empty));
}

#[test]
fn delete_core_rejects_non_positive_id() {
    let mut repo = InMemoryFactsRepository::new();

    let err = delete_fact_core(&mut repo, true, 0).unwrap_err();

    assert_eq!(err.status_class, StatusClass::UnprocessableInput);
}

#[test]
fn delete_core_maps_missing_fact_to_not_found() {
    let mut repo = InMemoryFactsRepository::new();

    let err = delete_fact_core(&mut repo, true, 12).unwrap_err();

    assert_eq!(err.status_class, StatusClass::NotFound);
}

#[test]
fn delete_core_removes_the_fact() {
    let mut repo = InMemoryFactsRepository::new();
    let payload = HttpCreateFactRequestBody::new("foo".to_string(), "bar".to_string());
    let created = create_fact_core(&mut repo, true, &payload).unwrap();

    delete_fact_core(&mut repo, true, created.id()).unwrap();

    let id = FactId::new(created.id()).unwrap();
    assert_eq!(repo.get(id), Err(GetFactError::NoSuchFact { id }));
}

#[test]
fn payload_validation_reports_the_failing_field() {
    let empty_title = HttpCreateFactRequestBody::new(String::new(), "bar".to_string());
    assert!(matches!(
        empty_title.to_create_fact_request(),
        Err(CreateFactRequestError::InvalidTitle {
            inner: FactTitleError::IsEmpty
        })
    ));

    let empty_body = HttpCreateFactRequestBody::new("foo".to_string(), String::new());
    assert!(matches!(
        empty_body.to_create_fact_request(),
        Err(CreateFactRequestError::InvalidBody {
            inner: FactBodyError::IsEmpty
        })
    ));

    let good = HttpCreateFactRequestBody::new("foo".to_string(), "bar".to_string());
    let request = good.to_create_fact_request().unwrap();
    assert_eq!(request.title().as_str(), "foo");
    assert_eq!(request.body().as_str(), "bar");
}

#[test]
fn error_mapping_matches_the_taxonomy() {
    let id = FactId::new(3).unwrap();

    let not_found = AppError::from_get_fact_error(&GetFactError::NoSuchFact { id });
    assert_eq!(not_found.status_class, StatusClass::NotFound);
    assert_eq!(not_found.details, "Fact with that id doesn't exist in our records");

    let internal = AppError::from_get_fact_error(&GetFactError::UnexpectedError {
        inner: "connection lost".to_string(),
    });
    assert_eq!(internal.status_class, StatusClass::InternalError);
    assert_eq!(internal.details, "connection lost");

    let empty = AppError::from_get_random_fact_error(&GetRandomFactError::Empty);
    assert_eq!(empty.status_class, StatusClass::NotFound);

    let gone = AppError::from_delete_fact_error(&DeleteFactError::NoSuchFact { id });
    assert_eq!(gone.status_class, StatusClass::NotFound);

    let invalid = AppError::from_fact_id_error(&FactIdError::NonPositive);
    assert_eq!(invalid.status_class, StatusClass::UnprocessableInput);
    assert_eq!(invalid.details, "Id is non-positive");

    let forbidden = AppError::forbidden();
    assert_eq!(forbidden.status_class, StatusClass::Forbidden);
    assert_eq!(forbidden.details, "Invalid credentials");
}
