//! Service-layer tests: the service bound to the substitutable in-memory
//! repository passes repository results through unchanged.

use poem_article::domain::article::Model;
use poem_article::repositories::MemRepository;
use poem_article::services::{ArticleServiceSt, ArticleServiceTrait};

fn service_with_titles(titles: &[&str]) -> ArticleServiceSt<MemRepository> {
    let mut svc = ArticleServiceSt::new(MemRepository::new());
    for t in titles {
        svc.create_article(t).unwrap();
    }
    svc
}

#[test]
fn get_by_id() {
    let svc = service_with_titles(&["title"]);
    let result = svc.get_article_by_id(1);
    assert!(result.is_ok() && result.unwrap().unwrap().id == 1);
}

#[test]
fn create_article() {
    let mut svc = service_with_titles(&[]);
    let result = svc.create_article("article");
    assert!(result.is_ok() && result.unwrap().title.unwrap() == "article");
}

#[test]
fn find_pages() {
    let svc = service_with_titles(&["article1"]);
    let result = svc.list_articles(0, 10);
    assert!(result.is_ok() && result.unwrap().len() > 0);
}

#[test]
fn get_twice_returns_identical_results() {
    let svc = service_with_titles(&["alpha", "beta"]);
    let first = svc.get_article_by_id(2).unwrap();
    let second = svc.get_article_by_id(2).unwrap();
    assert_eq!(first, second);
    let absent_first = svc.get_article_by_id(9).unwrap();
    let absent_second = svc.get_article_by_id(9).unwrap();
    assert_eq!(absent_first, absent_second);
}

#[test]
fn absent_id_is_none_not_error() {
    let svc = service_with_titles(&[]);
    let r = svc.get_article_by_id(42);
    assert_eq!(r, Ok(None));
    let svc = service_with_titles(&["only"]);
    let r = svc.get_article_by_id(2);
    assert_eq!(r, Ok(None));
}

#[test]
fn create_then_get_round_trip() {
    let mut svc = service_with_titles(&[]);
    let created = svc.create_article("fresh title").unwrap();
    let id = created.id.unwrap();
    let read = svc.get_article_by_id(id).unwrap().unwrap();
    assert_eq!(read.title, "fresh title");
    assert_eq!(read.content, None);
}

#[test]
fn list_respects_page_size_and_order() {
    let svc = service_with_titles(&["a", "b", "c", "d", "e"]);
    let page = svc.list_articles(0, 2).unwrap();
    assert_eq!(page.len(), 2);
    assert_eq!(page[0].id, 1);
    assert_eq!(page[1].id, 2);
    let page = svc.list_articles(1, 2).unwrap();
    assert_eq!(page.len(), 2);
    assert_eq!(page[0].id, 3);
    assert_eq!(page[1].id, 4);
    let page = svc.list_articles(2, 2).unwrap();
    assert_eq!(page.len(), 1);
    assert_eq!(page[0].id, 5);
    let page = svc.list_articles(7, 2).unwrap();
    assert_eq!(page, Vec::<Model>::new());
}

#[test]
fn list_one_record_store() {
    let svc = service_with_titles(&["solo"]);
    let page = svc.list_articles(0, 20).unwrap();
    assert_eq!(
        page,
        vec![Model { id: 1, title: "solo".to_string(), content: None }]
    );
}
