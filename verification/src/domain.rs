//! Record types for the two entities, together with the tagged field values
//! used by the transient models that creation requests are built from.

pub mod article;
pub mod author;

use vstd::prelude::*;

verus! {

/// A persistable field tagged with how its value came to be: not set at all,
/// explicitly provided by a caller, or carried over unchanged from the store.
/// Repository implementations must honour the tag when building a write.
#[derive(Debug, Clone, PartialEq, Eq)]
pub enum ActiveValue<T> {
    NotSet,
    Provided(T),
    Unchanged(T),
}

impl<T> ActiveValue<T> {
    /// Whether the tag carries a value at all.
    pub open spec fn has_value(&self) -> bool {
        !(self is NotSet)
    }

    /// The carried value; meaningful only when `has_value()` holds.
    pub open spec fn spec_unwrap(&self) -> T
        recommends
            self.has_value(),
    {
        match *self {
            ActiveValue::Provided(v) => v,
            ActiveValue::Unchanged(v) => v,
            ActiveValue::NotSet => vstd::pervasive::arbitrary(),
        }
    }

    /// Takes the carried value out of the tag.
    pub fn unwrap(self) -> (r: T)
        requires
            self.has_value(),
        ensures
            r == self.spec_unwrap(),
    {
        match self {
            ActiveValue::Provided(v) => v,
            ActiveValue::Unchanged(v) => v,
            ActiveValue::NotSet => vstd::pervasive::unreached(),
        }
    }
}

} // verus!
