//! Documents handed to the embedding pipeline.

use vstd::prelude::*;

verus! {

/// A piece of text with the identifier under which it is stored and found
/// again. A document with empty `data` stands for a deletion.
#[derive(Debug, PartialEq, Eq)]
pub struct Document {
    /// Identifies the document in a store.
    pub id: String,
    /// The text of the document.
    pub data: String,
}

/// The mathematical model of a [`Document`].
pub struct DocumentView {
    pub id: Seq<char>,
    pub data: Seq<char>,
}

impl View for Document {
    type V = DocumentView;

    open spec fn view(&self) -> DocumentView {
        DocumentView { id: self.id@, data: self.data@ }
    }
}

impl Clone for Document {
    fn clone(&self) -> (r: Self)
        ensures
            r@ == self@,
    {
        Document { id: self.id.clone(), data: self.data.clone() }
    }
}

impl Document {
    /// A document with the given identifier and text.
    #[must_use]
    pub fn new(id: String, data: String) -> (r: Self)
        ensures
            r.id == id,
            r.data == data,
            r@ == (DocumentView { id: id@, data: data@ }),
    {
        Self { id, data }
    }
}

} // verus!
