use vstd::prelude::*;

verus! {

/// One content record returned by the API: a unique identifier, a display
/// title, and the rendered body payload.
#[derive(Debug, PartialEq, Eq)]
pub struct ConfluencePage {
    pub id: String,
    pub title: String,
    pub body: ConfluencePageBody,
}

/// The body of one content record; only the rendered view is carried.
#[derive(Debug, PartialEq, Eq)]
pub struct ConfluencePageBody {
    pub view: ConfluencePageBodyView,
}

/// The rendered view of a record's body: one string of markup.
#[derive(Debug, PartialEq, Eq)]
pub struct ConfluencePageBodyView {
    pub value: String,
}

} // verus!
