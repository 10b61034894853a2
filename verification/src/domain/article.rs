//! The article entity: the persisted record, its transient tagged model, and
//! the mathematical view that contracts are stated over.

use vstd::prelude::*;

use crate::domain::ActiveValue;

verus! {

/// A persisted article record. The identity is assigned by the store and is
/// immutable after creation; the title is required, the content optional.
#[derive(Debug, PartialEq, Eq)]
pub struct Model {
    pub id: i32,
    pub title: String,
    pub content: Option<String>,
}

/// The mathematical content of an article record.
pub ghost struct ArticleView {
    pub id: int,
    pub title: Seq<char>,
    pub content: Option<Seq<char>>,
}

impl View for Model {
    type V = ArticleView;

    open spec fn view(&self) -> ArticleView {
        ArticleView {
            id: self.id as int,
            title: self.title@,
            content: match self.content {
                Some(c) => Some(c@),
                None => None,
            },
        }
    }
}

impl DeepView for Model {
    type V = ArticleView;

    open spec fn deep_view(&self) -> ArticleView {
        self.view()
    }
}

impl Clone for Model {
    fn clone(&self) -> (r: Self)
        ensures
            r == *self,
    {
        Model {
            id: self.id,
            title: self.title.clone(),
            content: match &self.content {
                Some(c) => Some(c.clone()),
                None => None,
            },
        }
    }
}

/// The transient article model: each field is tagged with whether it was
/// supplied by the caller, assigned by the store, or left untouched.
#[derive(Debug, Clone, PartialEq, Eq)]
pub struct ActiveModel {
    pub id: ActiveValue<i32>,
    pub title: ActiveValue<String>,
    pub content: ActiveValue<Option<String>>,
}

impl Model {
    /// Collapses a tagged model whose fields all carry values into a plain
    /// record.
    pub fn from(am: ActiveModel) -> (r: Self)
        requires
            am.id.has_value(),
            am.title.has_value(),
            am.content.has_value(),
        ensures
            r.id == am.id.spec_unwrap(),
            r.title == am.title.spec_unwrap(),
            r.content == am.content.spec_unwrap(),
    {
        Model { id: am.id.unwrap(), title: am.title.unwrap(), content: am.content.unwrap() }
    }
}

} // verus!
