//! Tests of the validated value types and the fact entity.

use fake::faker::lorem::en::Sentence;
use fake::Fake;

use facts::repository::models::{
    Fact, FactBody, FactBodyError, FactError, FactId, FactIdError, FactTitle, FactTitleError,
};

#[test]
fn non_positive_id() {
    assert_eq!(
        FactId::new((i32::MIN..=0).fake()),
        Err(FactIdError::NonPositive)
    );
}

#[test]
fn models_empty_title() {
    assert_eq!(FactTitle::new(""), Err(FactTitleError::IsEmpty));
}

#[test]
fn models_empty_body() {
    assert_eq!(FactBody::new(""), Err(FactBodyError::IsEmpty));
}

#[test]
fn models_long_title() {
    let title: String = (65..128).fake();

    assert_eq!(
        FactTitle::new(&title),
        Err(FactTitleError::TooLong {
            length: title.len()
        })
    );
}

#[test]
fn models_long_body() {
    let body: String = (2049..4096).fake();

    assert_eq!(
        FactBody::new(&body),
        Err(FactBodyError::TooLong { length: body.len() })
    );
}

#[test]
fn good_fact() {
    let id: i32 = (1..i32::MAX).fake();
    let title: String = Sentence(2..3).fake();
    let body: String = Sentence(2..3).fake();

    Fact::new(id, &title, &body).unwrap();
}

#[test]
fn fact_with_invalid_id() {
    let title: String = Sentence(2..3).fake();
    let body: String = Sentence(2..3).fake();

    assert!(matches!(
        Fact::new(0, &title, &body),
        Err(FactError::InvalidId { inner: _ })
    ));
}

#[test]
fn fact_with_invalid_title() {
    let id: i32 = (1..i32::MAX).fake();
    let body: String = Sentence(2..3).fake();

    assert!(matches!(
        Fact::new(id, "", &body),
        Err(FactError::InvalidTitle { inner: _ })
    ));
}

#[test]
fn fact_with_invalid_body() {
    let id: i32 = (1..i32::MAX).fake();
    let title: String = Sentence(2..3).fake();

    assert!(matches!(
        Fact::new(id, &title, ""),
        Err(FactError::InvalidBody { inner: _ })
    ));
}

#[test]
fn fact_preserves_its_inputs() {
    let fact = Fact::new(5, "a title", "a body").unwrap();

    assert_eq!(fact.id().value(), 5);
    assert_eq!(fact.title().as_str(), "a title");
    assert_eq!(fact.body().as_str(), "a body");
}

#[test]
fn title_rejects_multibyte_overflow() {
    // 33 two-byte characters: 33 characters but 66 bytes, over the 64-byte
    // bound; construction must reject rather than truncate.
    let title: String = "\u{e9}".repeat(33);
    assert_eq!(title.chars().count(), 33);

    assert_eq!(
        FactTitle::new(&title),
        Err(FactTitleError::TooLong { length: 66 })
    );
}

#[test]
fn title_boundary_at_64_bytes() {
    let title: String = "x".repeat(64);
    let built = FactTitle::new(&title).unwrap();
    assert_eq!(built.as_str(), title.as_str());
}

#[test]
fn body_boundary_at_2048_bytes() {
    let body: String = "x".repeat(2048);
    let built = FactBody::new(&body).unwrap();
    assert_eq!(built.as_str(), body.as_str());
}

#[test]
fn error_messages_are_stable() {
    assert_eq!(FactIdError::NonPositive.message(), "Id is non-positive");
    assert_eq!(
        FactTitleError::IsEmpty.message(),
        "Empty title is not allowed"
    );
    assert_eq!(
        FactTitleError::TooLong { length: 65 }.message(),
        "Title is very long"
    );
    assert_eq!(FactBodyError::IsEmpty.message(), "Empty body is not allowed");
    assert_eq!(
        FactBodyError::TooLong { length: 3000 }.message(),
        "Body is very long"
    );
}
