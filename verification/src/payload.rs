//! A small structured payload with which the boundary is exercised.

use vstd::prelude::*;
use vstd::string::*;

verus! {

/// A structure of one text.
#[derive(Clone, Debug, PartialEq, Eq)]
pub struct SomeStruct {
    inner: String,
}

impl View for SomeStruct {
    type V = Seq<char>;

    /// The text that the structure holds.
    closed spec fn view(&self) -> Seq<char> {
        self.inner@
    }
}

/// What `process` makes of a text: the same text, marked as processed.
pub open spec fn processed(inner: Seq<char>) -> Seq<char> {
    "processed: "@ + inner
}

impl SomeStruct {
    /// Makes the structure that holds `inner`.
    pub fn new(inner: String) -> (made: SomeStruct)
        ensures
            made@ == inner@,
    {
        SomeStruct { inner }
    }

    /// The text that the structure holds.
    pub fn inner(&self) -> (inner: &String)
        ensures
            inner@ == self@,
    {
        &self.inner
    }

    /// Marks the text as processed.
    pub fn process(&mut self)
        ensures
            final(self)@ == processed(old(self)@),
    {
        let mut marked: String = String::from_str("processed: ");
        marked.append(self.inner.as_str());
        self.inner = marked;
    }
}

} // verus!
