//! The popup list of record kinds.
use crate::autocomplete::views_of;
use vstd::prelude::*;

verus! {

/// A list of labels to choose from.
#[derive(Debug)]
pub struct TypeList {
    items: Vec<String>,
}

impl View for TypeList {
    type V = Seq<Seq<char>>;

    closed spec fn view(&self) -> Seq<Seq<char>> {
        views_of(self.items@)
    }
}

impl TypeList {
    pub fn default(items: Vec<String>) -> (r: Self)
        ensures
            r@ == views_of(items@),
    {
        Self { items }
    }

    pub fn items(&self) -> (r: &Vec<String>)
        ensures
            views_of(r@) == self@,
    {
        &self.items
    }
}

} // verus!
