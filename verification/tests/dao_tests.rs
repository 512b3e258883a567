//! Tests of the entity stores: the hash-map store and the mocked store.

use std::collections::HashMap;

use fake::faker::lorem::en::Sentence;
use fake::Fake;

use facts::dao::entity::{Builder, Entity};
use facts::dao::errors::{GetError, GetRandomError};
use facts::dao::hash_map::HashMapDao;
use facts::dao::mocked::MockedDao;
use facts::dao::Dao;

fn sample_entity(id: u64) -> Entity {
    let title: String = Sentence(2..3).fake();
    let body: String = Sentence(5..10).fake();
    Builder::new().id(id).title(title).body(body).build().unwrap()
}

#[test]
fn hash_map_get() {
    let entity = sample_entity((1..u64::MAX).fake());
    let mut map = HashMap::new();
    map.insert(entity.id(), entity.clone());
    let dao = HashMapDao::new(map);

    let result = dao.get(entity.id()).unwrap();

    assert_eq!(entity, result);
}

#[test]
fn hash_map_get_non_existent() {
    let dao = HashMapDao::new(HashMap::new());
    let id: u64 = (1..u64::MAX).fake();
    let result = dao.get(id);

    assert_eq!(result, Err(GetError::NoSuchEntity { id }));
}

#[test]
fn hash_map_get_random_from_empty_map() {
    let dao = HashMapDao::new(HashMap::new());
    let result = dao.get_random();

    assert_eq!(result, Err(GetRandomError::Empty));
}

#[test]
fn hash_map_get_random_from_one_element() {
    let entity = sample_entity((1..u64::MAX).fake());
    let mut map = HashMap::new();
    map.insert(entity.id(), entity.clone());
    let dao = HashMapDao::new(map);

    let result = dao.get_random().unwrap();

    assert_eq!(entity, result);
}

#[test]
fn hash_map_get_random() {
    let entity = sample_entity((1..u64::MAX).fake());
    let mut map = HashMap::new();

    for _ in 0..32 {
        map.insert(entity.id(), entity.clone());
    }

    let dao = HashMapDao::new(map);

    dao.get_random().unwrap();
}

#[test]
fn hash_map_get_random_covers_all_keys() {
    // With several distinct entities stored, repeated sampling must not
    // always return the same one.
    let mut map = HashMap::new();
    for id in 1..=4u64 {
        map.insert(id, sample_entity(id));
    }
    let dao = HashMapDao::new(map);

    let mut seen = std::collections::HashSet::new();
    for _ in 0..200 {
        seen.insert(dao.get_random().unwrap().id());
    }

    assert!(seen.len() >= 2);
}

#[test]
fn mocked_dao_get() {
    let dao = MockedDao {};
    let entity = dao.get(7).unwrap();

    assert_eq!(entity.id(), 7);
    assert_eq!(entity.title(), "About smoking");
    assert!(entity.body().starts_with("The phrase \"smoking kills\""));
}

#[test]
fn mocked_dao_get_zero_id() {
    let dao = MockedDao {};

    assert_eq!(dao.get(0), Err(GetError::NoSuchEntity { id: 0 }));
}

#[test]
fn mocked_dao_get_random() {
    let dao = MockedDao {};
    let entity = dao.get_random().unwrap();

    assert_eq!(entity.id(), 42);
    assert_eq!(entity.title(), "About smoking");
}
