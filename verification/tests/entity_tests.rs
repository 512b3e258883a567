//! Tests of the entity builder's validation order and bounds.

use fake::faker::lorem::en::Sentence;
use fake::{Fake, Faker};

use facts::dao::entity::{Builder, BuilderError};

#[test]
fn default_builder() {
    let builder = Builder::default();

    assert_eq!(builder.get_id(), None);
    assert_eq!(*builder.get_body(), None);
    assert_eq!(*builder.get_title(), None);
}

#[test]
fn id_not_set() {
    let title: String = Sentence(2..3).fake();
    let body: String = Sentence(5..10).fake();

    let builder = Builder::default();
    let builder_err = builder.title(title).body(body).build();

    assert_eq!(builder_err, Err(BuilderError::IdNotSet));
}

#[test]
fn title_not_set() {
    let id: u64 = Faker.fake();
    let body: String = Sentence(5..10).fake();

    let builder = Builder::default();
    let builder_err = builder.id(id).body(body).build();

    assert_eq!(builder_err, Err(BuilderError::TitleNotSet));
}

#[test]
fn body_not_set() {
    let id: u64 = Faker.fake();
    let title: String = Sentence(2..3).fake();

    let builder = Builder::default();
    let builder_err = builder.id(id).title(title).build();

    assert_eq!(builder_err, Err(BuilderError::BodyNotSet));
}

#[test]
fn id_equals_zero() {
    let title: String = Sentence(2..3).fake();
    let body: String = Sentence(5..10).fake();

    let builder = Builder::default();
    let builder_err = builder.id(0).title(title).body(body).build();

    assert_eq!(builder_err, Err(BuilderError::IdLessOrEqualsZero));
}

#[test]
fn entity_empty_title() {
    let id: u64 = Faker.fake();
    let body: String = Sentence(5..10).fake();

    let builder = Builder::default();
    let builder_err = builder.id(id).title(String::new()).body(body).build();

    assert_eq!(builder_err, Err(BuilderError::TitleIsEmpty));
}

#[test]
fn entity_empty_body() {
    let id: u64 = Faker.fake();
    let title: String = Sentence(2..3).fake();

    let builder = Builder::default();
    let builder_err = builder.id(id).title(title).body(String::new()).build();

    assert_eq!(builder_err, Err(BuilderError::BodyIsEmpty));
}

#[test]
fn entity_long_title() {
    let id: u64 = Faker.fake();
    let title: String = (65..128).fake();
    let title_length = title.len();
    let body: String = Sentence(5..10).fake();

    let builder = Builder::default();
    let builder_err = builder.id(id).title(title).body(body).build();

    assert_eq!(
        builder_err,
        Err(BuilderError::TitleTooLong {
            length: title_length
        })
    );
}

#[test]
fn entity_long_body() {
    let id: u64 = Faker.fake();
    let title: String = Sentence(2..3).fake();
    let body: String = (2049..4096).fake();
    let body_length = body.len();

    let builder = Builder::default();
    let builder_err = builder.id(id).title(title).body(body).build();

    assert_eq!(
        builder_err,
        Err(BuilderError::BodyTooLong {
            length: body_length
        })
    );
}

#[test]
fn all_good() {
    let id: u64 = Faker.fake();
    let title: String = Sentence(2..3).fake();
    let body: String = Sentence(5..10).fake();

    let builder = Builder::default();

    builder.id(id).title(title).body(body).build().unwrap();
}

#[test]
fn built_entity_exposes_its_fields() {
    let entity = Builder::new()
        .id(7)
        .title("A title".to_string())
        .body("A body".to_string())
        .build()
        .unwrap();

    assert_eq!(entity.id(), 7);
    assert_eq!(entity.title(), "A title");
    assert_eq!(entity.body(), "A body");
}

#[test]
fn title_boundary_is_exact() {
    let title_64: String = "t".repeat(64);
    let title_65: String = "t".repeat(65);
    let body = "b".to_string();

    Builder::new()
        .id(1)
        .title(title_64)
        .body(body.clone())
        .build()
        .unwrap();

    assert_eq!(
        Builder::new().id(1).title(title_65).body(body).build(),
        Err(BuilderError::TitleTooLong { length: 65 })
    );
}

#[test]
fn body_boundary_is_exact() {
    let title = "t".to_string();
    let body_2048: String = "b".repeat(2048);
    let body_2049: String = "b".repeat(2049);

    Builder::new()
        .id(1)
        .title(title.clone())
        .body(body_2048)
        .build()
        .unwrap();

    assert_eq!(
        Builder::new().id(1).title(title).body(body_2049).build(),
        Err(BuilderError::BodyTooLong { length: 2049 })
    );
}
