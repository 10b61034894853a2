//! The author entity: the persisted record, its transient tagged model, and
//! the mathematical view that contracts are stated over.

use vstd::prelude::*;

use crate::domain::ActiveValue;

verus! {

/// A persisted author record. The identity is assigned by the store; the
/// remaining fields are all required.
#[derive(Debug, PartialEq, Eq)]
pub struct Model {
    pub id: i32,
    pub first_name: String,
    pub last_name: String,
    pub email: String,
}

/// The mathematical content of an author record.
pub ghost struct AuthorView {
    pub id: int,
    pub first_name: Seq<char>,
    pub last_name: Seq<char>,
    pub email: Seq<char>,
}

impl View for Model {
    type V = AuthorView;

    open spec fn view(&self) -> AuthorView {
        AuthorView {
            id: self.id as int,
            first_name: self.first_name@,
            last_name: self.last_name@,
            email: self.email@,
        }
    }
}

impl DeepView for Model {
    type V = AuthorView;

    open spec fn deep_view(&self) -> AuthorView {
        self.view()
    }
}

impl Clone for Model {
    fn clone(&self) -> (r: Self)
        ensures
            r == *self,
    {
        Model {
            id: self.id,
            first_name: self.first_name.clone(),
            last_name: self.last_name.clone(),
            email: self.email.clone(),
        }
    }
}

/// The transient author model, with each field tagged as on the article side.
#[derive(Debug, Clone, PartialEq, Eq)]
pub struct ActiveModel {
    pub id: ActiveValue<i32>,
    pub first_name: ActiveValue<String>,
    pub last_name: ActiveValue<String>,
    pub email: ActiveValue<String>,
}

} // verus!
