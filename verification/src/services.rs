//! The service capability: business operations above raw persistence. The
//! current rules are pass-through — the service packages inputs and delegates
//! to the repository it was bound to, without transforming what comes back —
//! and its contracts say exactly that, for every conforming repository
//! implementation.

use vstd::prelude::*;

use crate::domain::ActiveValue;
use crate::domain::article;
use crate::domain::article::{ActiveModel, ArticleView};
use crate::repositories::{
    ArticleCreate,
    ArticleRepositoryTrait,
    Repository,
    RepositoryError,
    lookup,
    page_of,
    store_inv,
};

verus! {

/// Business operations over articles, independent of the transport above and
/// of the repository implementation below.
pub trait ArticleServiceTrait: Sized {
    /// The article records reachable through the service.
    spec fn articles(&self) -> Seq<ArticleView>;

    /// Creates an article with the given title and no content. The store
    /// assigns the next identity; the created record is echoed back. When the
    /// identity space is exhausted the store is left unchanged and the
    /// constraint failure is reported.
    fn create_article(&mut self, title: &str) -> (r: Result<ActiveModel, RepositoryError>)
        requires
            store_inv(old(self).articles()),
        ensures
            store_inv(final(self).articles()),
            old(self).articles().len() < i32::MAX ==> {
                &&& final(self).articles() == old(self).articles().push(
                    ArticleView {
                        id: old(self).articles().len() as int + 1,
                        title: title@,
                        content: None,
                    },
                )
                &&& r matches Ok(am)
                &&& am.id == ActiveValue::Unchanged((old(self).articles().len() + 1) as i32)
                &&& am.title matches ActiveValue::Unchanged(t) && t@ == title@
                &&& am.content == ActiveValue::Unchanged(None::<String>)
            },
            old(self).articles().len() == i32::MAX ==> {
                &&& r == Err::<ActiveModel, RepositoryError>(RepositoryError::ConstraintViolation)
                &&& final(self).articles() == old(self).articles()
            },
    ;

    /// Lists the requested page of articles in ascending identity order, at
    /// most `page_size` of them; a page past the end is empty, not an error.
    fn list_articles(&self, page: i32, page_size: i32) -> (r: Result<
        Vec<article::Model>,
        RepositoryError,
    >)
        requires
            page >= 0,
            page_size > 0,
            store_inv(self.articles()),
        ensures
            r matches Ok(v) && v.deep_view() == page_of(
                self.articles(),
                page as int,
                page_size as int,
            ),
    ;

    /// Returns the article carrying the given identity, or nothing; absence
    /// is not an error.
    fn get_article_by_id(&self, id: i32) -> (r: Result<Option<article::Model>, RepositoryError>)
        requires
            store_inv(self.articles()),
        ensures
            r matches Ok(o) && o.deep_view() == lookup(self.articles(), id as int),
    ;
}

/// A side-effect hook meant to notify an external system after a successful
/// creation. A publish failure is best-effort: it must never roll back or
/// fail the creation it follows, so no outcome is promised here.
pub trait SocialMediaPublisherTrait: Sized {
    fn publish_article(&self, article: &ActiveModel) -> Result<(), RepositoryError>;
}

/// The article service, bound at construction time to any conforming
/// repository implementation. All operations delegate to the repository and
/// pass its results through unchanged.
pub struct ArticleServiceSt<R: Repository> {
    pub repo: R,
}

impl<R: Repository> ArticleServiceSt<R> {
    /// Binds the service to a repository implementation.
    pub fn new(repo: R) -> (s: Self)
        ensures
            s.repo == repo,
    {
        ArticleServiceSt { repo }
    }
}

impl<R: Repository> ArticleServiceTrait for ArticleServiceSt<R> {
    open spec fn articles(&self) -> Seq<ArticleView> {
        self.repo.articles()
    }

    fn create_article(&mut self, title: &str) -> (r: Result<ActiveModel, RepositoryError>) {
        let msg = ArticleCreate { title: title.to_owned() };
        ArticleRepositoryTrait::create(&mut self.repo, &msg)
    }

    fn list_articles(&self, page: i32, page_size: i32) -> (r: Result<
        Vec<article::Model>,
        RepositoryError,
    >) {
        ArticleRepositoryTrait::find_pages(&self.repo, page, page_size)
    }

    fn get_article_by_id(&self, id: i32) -> (r: Result<Option<article::Model>, RepositoryError>) {
        ArticleRepositoryTrait::find_by_id(&self.repo, id)
    }
}

/// The current publisher implementation: a stand-in that accepts every
/// article without contacting anything.
#[derive(Debug, Clone)]
pub struct SocialMediaPublisher;

impl SocialMediaPublisherTrait for SocialMediaPublisher {
    fn publish_article(&self, article: &ActiveModel) -> (r: Result<(), RepositoryError>)
        ensures
            r is Ok,
    {
        Ok(())
    }
}

} // verus!
