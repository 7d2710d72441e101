//! A list that is written as one value, its items separated by commas.

use vstd::prelude::*;

verus! {

/// The items of a comma-separated value, in the order written.
#[derive(Debug, PartialEq)]
pub struct CommaSeparatedVec<T>(pub Vec<T>);

impl<T> View for CommaSeparatedVec<T> {
    type V = Seq<T>;

    open spec fn view(&self) -> Seq<T> {
        self.0@
    }
}

impl<T> CommaSeparatedVec<T> {
    /// The list that holds the given items, in their order.
    pub fn from_iter(items: Vec<T>) -> (list: Self)
        ensures
            list@ == items@,
    {
        Self(items)
    }
}

impl<T> std::ops::Deref for CommaSeparatedVec<T> {
    type Target = Vec<T>;

    fn deref(&self) -> (items: &Vec<T>)
        ensures
            items@ == self@,
    {
        &self.0
    }
}

} // verus!
