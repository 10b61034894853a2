//! Scenario tests against the in-memory store: identity assignment, the
//! tagged transient models, and the error vocabulary.

use poem_article::domain::article;
use poem_article::domain::article::ActiveModel;
use poem_article::domain::ActiveValue;
use poem_article::repositories::{
    ArticleCreate, ArticleRepositoryTrait, MemRepository, RepositoryError,
};

#[test]
fn create_on_empty_store_assigns_identity_one() {
    let mut repo = MemRepository::new();
    let created = repo
        .create(&ArticleCreate { title: "ATitle".to_string() })
        .unwrap();
    assert_eq!(
        created,
        ActiveModel {
            id: ActiveValue::Unchanged(1),
            title: ActiveValue::Unchanged("ATitle".to_string()),
            content: ActiveValue::Unchanged(None),
        }
    );
    let read = repo.find_by_id(1).unwrap();
    assert_eq!(
        read,
        Some(article::Model { id: 1, title: "ATitle".to_string(), content: None })
    );
}

#[test]
fn second_create_leaves_first_record_untouched() {
    let mut repo = MemRepository::new();
    repo.create(&ArticleCreate { title: "ATitle".to_string() })
        .unwrap();
    let second = repo
        .create(&ArticleCreate { title: "BTitle".to_string() })
        .unwrap();
    assert_eq!(
        second,
        ActiveModel {
            id: ActiveValue::Unchanged(2),
            title: ActiveValue::Unchanged("BTitle".to_string()),
            content: ActiveValue::Unchanged(None),
        }
    );
    let first = repo.find_by_id(1).unwrap();
    assert_eq!(
        first,
        Some(article::Model { id: 1, title: "ATitle".to_string(), content: None })
    );
}

#[test]
fn model_from_collapses_tagged_fields() {
    let am = ActiveModel {
        id: ActiveValue::Unchanged(7),
        title: ActiveValue::Provided("a title".to_string()),
        content: ActiveValue::Unchanged(Some("body".to_string())),
    };
    let m = article::Model::from(am);
    assert_eq!(
        m,
        article::Model { id: 7, title: "a title".to_string(), content: Some("body".to_string()) }
    );
}

#[test]
fn active_value_unwrap_returns_carried_value() {
    assert_eq!(ActiveValue::Provided(5).unwrap(), 5);
    assert_eq!(ActiveValue::Unchanged("x".to_string()).unwrap(), "x");
}

#[test]
fn error_messages_name_each_failure() {
    assert_eq!(
        RepositoryError::ConstraintViolation.message(),
        "store constraint violated"
    );
    assert_eq!(RepositoryError::Connectivity.message(), "store unreachable");
    assert_eq!(RepositoryError::Serialization.message(), "stored value malformed");
}
