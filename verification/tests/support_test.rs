//! Tests for the author side, the configuration defaults, the paging
//! constraint check, and the publisher stand-in.

use poem_article::domain::author;
use poem_article::domain::ActiveValue;
use poem_article::handlers::Params;
use poem_article::repositories::{AuthorCreate, AuthorRepositoryTrait, MemRepository};
use poem_article::services::{SocialMediaPublisher, SocialMediaPublisherTrait};
use poem_article::AppConfig;

#[test]
fn author_create_and_get_round_trip() {
    let mut repo = MemRepository::new();
    let created = repo
        .create(&AuthorCreate::new(
            "Ada".to_string(),
            "Lovelace".to_string(),
            "ada@example.org".to_string(),
        ))
        .unwrap();
    assert_eq!(
        created,
        author::ActiveModel {
            id: ActiveValue::Unchanged(1),
            first_name: ActiveValue::Unchanged("Ada".to_string()),
            last_name: ActiveValue::Unchanged("Lovelace".to_string()),
            email: ActiveValue::Unchanged("ada@example.org".to_string()),
        }
    );
    let read = repo.get_by_id(1).unwrap();
    assert_eq!(
        read,
        Some(author::Model {
            id: 1,
            first_name: "Ada".to_string(),
            last_name: "Lovelace".to_string(),
            email: "ada@example.org".to_string(),
        })
    );
    assert_eq!(repo.get_by_id(2).unwrap(), None);
}

#[test]
fn config_defaults_apply_only_when_missing() {
    let c = AppConfig::resolve(None, None, "sqlite::memory:".to_string());
    assert_eq!(c.host, "0.0.0.1");
    assert_eq!(c.port, "8000");
    assert_eq!(c.db_url, "sqlite::memory:");

    let c = AppConfig::resolve(
        Some("127.0.0.1".to_string()),
        Some("3000".to_string()),
        "postgres://db".to_string(),
    );
    assert_eq!(c.host, "127.0.0.1");
    assert_eq!(c.port, "3000");
    assert_eq!(c.db_url, "postgres://db");
}

#[test]
fn paging_params_constraint() {
    assert!(Params { page: 0, page_size: 20 }.is_valid());
    assert!(Params { page: 3, page_size: 1 }.is_valid());
    assert!(!Params { page: -1, page_size: 20 }.is_valid());
    assert!(!Params { page: 0, page_size: 0 }.is_valid());
    assert!(!Params { page: 0, page_size: -5 }.is_valid());
}

#[test]
fn publisher_accepts_every_article() {
    let publisher = SocialMediaPublisher;
    let am = poem_article::domain::article::ActiveModel {
        id: ActiveValue::Unchanged(1),
        title: ActiveValue::Provided("t".to_string()),
        content: ActiveValue::NotSet,
    };
    assert_eq!(publisher.publish_article(&am), Ok(()));
}
