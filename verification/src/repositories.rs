//! The repository capability: per-entity storage operations stated over a
//! mathematical view of the store, together with an in-memory implementation.
//!
//! A well-formed store assigns identities sequentially from 1 in storage
//! order, so identity lookup and pagination have exact meanings, given here as
//! the spec functions `lookup` and `page_of`. Any conforming implementation
//! (the in-memory one below, or a store-backed one outside the verified
//! boundary) can be bound into the service layer unchanged.

use vstd::prelude::*;

use crate::domain::ActiveValue;
use crate::domain::article;
use crate::domain::article::{ActiveModel, ArticleView};
use crate::domain::author;
use crate::domain::author::AuthorView;

verus! {

/// The caller-supplied fields for creating an article.
pub struct ArticleCreate {
    pub title: String,
}

/// The caller-supplied fields for creating an author.
pub struct AuthorCreate {
    first_name: String,
    last_name: String,
    email: String,
}

impl AuthorCreate {
    pub closed spec fn spec_first_name(&self) -> Seq<char> {
        self.first_name@
    }

    pub closed spec fn spec_last_name(&self) -> Seq<char> {
        self.last_name@
    }

    pub closed spec fn spec_email(&self) -> Seq<char> {
        self.email@
    }

    /// Packages the caller-supplied author fields.
    pub fn new(first_name: String, last_name: String, email: String) -> (r: Self)
        ensures
            r.spec_first_name() == first_name@,
            r.spec_last_name() == last_name@,
            r.spec_email() == email@,
    {
        AuthorCreate { first_name, last_name, email }
    }
}

/// The error vocabulary of the storage layer. Absence of a record is not an
/// error; these cover genuine failures of the store itself.
#[derive(Debug, Clone, Copy, PartialEq, Eq, Structural)]
pub enum RepositoryError {
    /// A store constraint cannot be met, e.g. the identity space is exhausted.
    ConstraintViolation,
    /// The store cannot be reached.
    Connectivity,
    /// A stored value does not match the expected record shape.
    Serialization,
}

impl RepositoryError {
    /// A short description of the failure, for reporting at the boundary.
    pub fn message(&self) -> (m: String)
        ensures
            *self == RepositoryError::ConstraintViolation ==> m@ == "store constraint violated"@,
            *self == RepositoryError::Connectivity ==> m@ == "store unreachable"@,
            *self == RepositoryError::Serialization ==> m@ == "stored value malformed"@,
    {
        match *self {
            RepositoryError::ConstraintViolation => "store constraint violated".to_owned(),
            RepositoryError::Connectivity => "store unreachable".to_owned(),
            RepositoryError::Serialization => "stored value malformed".to_owned(),
        }
    }
}

/// A well-formed article store: identities are assigned sequentially from 1
/// in storage order, and stay within the identity type.
pub open spec fn store_inv(s: Seq<ArticleView>) -> bool {
    &&& s.len() <= i32::MAX
    &&& forall|i: int| 0 <= i < s.len() ==> (#[trigger] s[i]).id == i + 1
}

/// Identity lookup against a well-formed store: the record carrying `id`, or
/// nothing when no record does.
pub open spec fn lookup(s: Seq<ArticleView>, id: int) -> Option<ArticleView>
    recommends
        store_inv(s),
{
    if 1 <= id <= s.len() {
        Some(s[id - 1])
    } else {
        None
    }
}

/// The page of records `page * size .. page * size + size` in storage order;
/// a page past the end of the store is empty.
pub open spec fn page_of(s: Seq<ArticleView>, page: int, size: int) -> Seq<ArticleView>
    recommends
        page >= 0,
        size > 0,
{
    let lo = if page * size <= s.len() {
        page * size
    } else {
        s.len() as int
    };
    let hi = if lo + size <= s.len() {
        lo + size
    } else {
        s.len() as int
    };
    s.subrange(lo, hi)
}

/// A well-formed author store, mirroring the article side.
pub open spec fn author_store_inv(s: Seq<AuthorView>) -> bool {
    &&& s.len() <= i32::MAX
    &&& forall|i: int| 0 <= i < s.len() ==> (#[trigger] s[i]).id == i + 1
}

/// Identity lookup against a well-formed author store.
pub open spec fn author_lookup(s: Seq<AuthorView>, id: int) -> Option<AuthorView>
    recommends
        author_store_inv(s),
{
    if 1 <= id <= s.len() {
        Some(s[id - 1])
    } else {
        None
    }
}

/// Storage operations for articles, independent of the store technology, so
/// that an in-memory implementation can substitute for a store-backed one.
pub trait ArticleRepositoryTrait: Sized {
    /// The article records the store currently holds, in storage order.
    spec fn articles(&self) -> Seq<ArticleView>;

    /// Inserts a new article built from the caller-supplied fields. The store
    /// assigns the next identity and echoes the full record back, every field
    /// tagged as taken over from the store. When the identity space is
    /// exhausted the store is left unchanged and the constraint failure is
    /// reported.
    fn create(&mut self, f: &ArticleCreate) -> (r: Result<ActiveModel, RepositoryError>)
        requires
            store_inv(old(self).articles()),
        ensures
            store_inv(final(self).articles()),
            old(self).articles().len() < i32::MAX ==> {
                &&& final(self).articles() == old(self).articles().push(
                    ArticleView {
                        id: old(self).articles().len() as int + 1,
                        title: f.title@,
                        content: None,
                    },
                )
                &&& r matches Ok(am)
                &&& am.id == ActiveValue::Unchanged((old(self).articles().len() + 1) as i32)
                &&& am.title == ActiveValue::Unchanged(f.title)
                &&& am.content == ActiveValue::Unchanged(None::<String>)
            },
            old(self).articles().len() == i32::MAX ==> {
                &&& r == Err::<ActiveModel, RepositoryError>(RepositoryError::ConstraintViolation)
                &&& final(self).articles() == old(self).articles()
            },
    ;

    /// Returns the record carrying the given identity, or nothing; absence is
    /// not an error, and the store is read, never changed.
    fn find_by_id(&self, id: i32) -> (r: Result<Option<article::Model>, RepositoryError>)
        requires
            store_inv(self.articles()),
        ensures
            r matches Ok(o) && o.deep_view() == lookup(self.articles(), id as int),
    ;

    /// Returns the records of the requested page in ascending identity order,
    /// at most `page_size` of them; a page past the end is empty, not an
    /// error.
    fn find_pages(&self, page: i32, page_size: i32) -> (r: Result<
        Vec<article::Model>,
        RepositoryError,
    >)
        requires
            page >= 0,
            page_size > 0,
            store_inv(self.articles()),
        ensures
            r matches Ok(v) && v.deep_view() == page_of(
                self.articles(),
                page as int,
                page_size as int,
            ),
    ;
}

/// Storage operations for authors.
pub trait AuthorRepositoryTrait: Sized {
    /// The author records the store currently holds, in storage order.
    spec fn authors(&self) -> Seq<AuthorView>;

    /// Inserts a new author built from the caller-supplied fields; the store
    /// assigns the next identity and echoes the full record back.
    fn create(&mut self, f: &AuthorCreate) -> (r: Result<author::ActiveModel, RepositoryError>)
        requires
            author_store_inv(old(self).authors()),
        ensures
            author_store_inv(final(self).authors()),
            old(self).authors().len() < i32::MAX ==> {
                &&& final(self).authors() == old(self).authors().push(
                    AuthorView {
                        id: old(self).authors().len() as int + 1,
                        first_name: f.spec_first_name(),
                        last_name: f.spec_last_name(),
                        email: f.spec_email(),
                    },
                )
                &&& r matches Ok(am)
                &&& am.id == ActiveValue::Unchanged((old(self).authors().len() + 1) as i32)
                &&& am.first_name matches ActiveValue::Unchanged(v) && v@ == f.spec_first_name()
                &&& am.last_name matches ActiveValue::Unchanged(v) && v@ == f.spec_last_name()
                &&& am.email matches ActiveValue::Unchanged(v) && v@ == f.spec_email()
            },
            old(self).authors().len() == i32::MAX ==> {
                &&& r == Err::<author::ActiveModel, RepositoryError>(
                    RepositoryError::ConstraintViolation,
                )
                &&& final(self).authors() == old(self).authors()
            },
    ;

    /// Returns the author carrying the given identity, or nothing; absence is
    /// not an error.
    fn get_by_id(&self, id: i32) -> (r: Result<Option<author::Model>, RepositoryError>)
        requires
            author_store_inv(self.authors()),
        ensures
            r matches Ok(o) && o.deep_view() == author_lookup(self.authors(), id as int),
    ;
}

/// The full persistence capability: both entities behind one handle.
pub trait Repository: ArticleRepositoryTrait + AuthorRepositoryTrait + Sync + Send {

}

/// An in-memory repository: the substitutable implementation used for tests
/// and anywhere no durable store is wanted.
pub struct MemRepository {
    articles: Vec<article::Model>,
    authors: Vec<author::Model>,
}

impl MemRepository {
    /// An empty store.
    pub fn new() -> (r: Self)
        ensures
            r.articles() == Seq::<ArticleView>::empty(),
            r.authors() == Seq::<AuthorView>::empty(),
    {
        let r = MemRepository { articles: Vec::new(), authors: Vec::new() };
        proof {
            assert(r.articles() =~= Seq::<ArticleView>::empty());
            assert(r.authors() =~= Seq::<AuthorView>::empty());
        }
        r
    }
}

impl ArticleRepositoryTrait for MemRepository {
    closed spec fn articles(&self) -> Seq<ArticleView> {
        self.articles.deep_view()
    }

    fn create(&mut self, f: &ArticleCreate) -> (r: Result<ActiveModel, RepositoryError>) {
        if self.articles.len() >= i32::MAX as usize {
            return Err(RepositoryError::ConstraintViolation);
        }
        let id: i32 = (self.articles.len() + 1) as i32;
        self.articles.push(article::Model { id, title: f.title.clone(), content: None });
        proof {
            assert(self.articles.deep_view() =~= old(self).articles().push(
                ArticleView {
                    id: old(self).articles().len() as int + 1,
                    title: f.title@,
                    content: None,
                },
            ));
        }
        Ok(
            ActiveModel {
                id: ActiveValue::Unchanged(id),
                title: ActiveValue::Unchanged(f.title.clone()),
                content: ActiveValue::Unchanged(None),
            },
        )
    }

    fn find_by_id(&self, id: i32) -> (r: Result<Option<article::Model>, RepositoryError>) {
        if 1 <= id && id as usize <= self.articles.len() {
            let m = self.articles[(id - 1) as usize].clone();
            Ok(Some(m))
        } else {
            Ok(None)
        }
    }

    fn find_pages(&self, page: i32, page_size: i32) -> (r: Result<
        Vec<article::Model>,
        RepositoryError,
    >) {
        let len: usize = self.articles.len();
        let p: u64 = page as u64;
        let sz: u64 = page_size as u64;
        proof {
            assert(p * sz <= 0x7fff_ffffu64 * 0x7fff_ffffu64) by (nonlinear_arith)
                requires
                    p <= 0x7fff_ffff,
                    sz <= 0x7fff_ffff,
            ;
        }
        let start_u: u64 = p * sz;
        let start: usize = if start_u >= len as u64 {
            len
        } else {
            start_u as usize
        };
        let avail: usize = len - start;
        let take: usize = if (page_size as u64) <= (avail as u64) {
            page_size as usize
        } else {
            avail
        };
        let end: usize = start + take;
        let mut out: Vec<article::Model> = Vec::new();
        let mut i: usize = start;
        while i < end
            invariant
                start <= i <= end <= self.articles.len(),
                out@.len() == i - start,
                forall|k: int|
                    0 <= k < out@.len() ==> #[trigger] out@[k] == self.articles@[start + k],
            decreases end - i,
        {
            out.push(self.articles[i].clone());
            i += 1;
        }
        proof {
            assert(out.deep_view() =~= page_of(
                self.articles(),
                page as int,
                page_size as int,
            ));
        }
        Ok(out)
    }
}

impl AuthorRepositoryTrait for MemRepository {
    closed spec fn authors(&self) -> Seq<AuthorView> {
        self.authors.deep_view()
    }

    fn create(&mut self, f: &AuthorCreate) -> (r: Result<author::ActiveModel, RepositoryError>) {
        if self.authors.len() >= i32::MAX as usize {
            return Err(RepositoryError::ConstraintViolation);
        }
        let id: i32 = (self.authors.len() + 1) as i32;
        let first_name = f.first_name.clone();
        let last_name = f.last_name.clone();
        let email = f.email.clone();
        self.authors.push(
            author::Model {
                id,
                first_name: first_name.clone(),
                last_name: last_name.clone(),
                email: email.clone(),
            },
        );
        proof {
            assert(self.authors.deep_view() =~= old(self).authors().push(
                AuthorView {
                    id: old(self).authors().len() as int + 1,
                    first_name: f.spec_first_name(),
                    last_name: f.spec_last_name(),
                    email: f.spec_email(),
                },
            ));
        }
        Ok(
            author::ActiveModel {
                id: ActiveValue::Unchanged(id),
                first_name: ActiveValue::Unchanged(first_name),
                last_name: ActiveValue::Unchanged(last_name),
                email: ActiveValue::Unchanged(email),
            },
        )
    }

    fn get_by_id(&self, id: i32) -> (r: Result<Option<author::Model>, RepositoryError>) {
        if 1 <= id && id as usize <= self.authors.len() {
            let m = self.authors[(id - 1) as usize].clone();
            Ok(Some(m))
        } else {
            Ok(None)
        }
    }
}

impl Repository for MemRepository {

}

} // verus!
