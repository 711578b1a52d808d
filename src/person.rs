use vstd::prelude::*;

verus! {

/// The record that the storage examples keep.
#[derive(Clone, Debug, PartialEq, Eq)]
pub struct Person {
    pub name: String,
    pub age: u32,
}

impl View for Person {
    type V = (Seq<char>, u32);

    open spec fn view(&self) -> (Seq<char>, u32) {
        (self.name@, self.age)
    }
}

} // verus!
