//! Information about a document as a whole.

use vstd::prelude::*;
use chrono::NaiveDateTime;
use crate::link::{Link, Person};

verus! {

/// Describes the document: what it is, who made it and when.
///
/// An absent field was not provided; it is not the same as an empty string.
#[derive(Debug)]
pub struct Metadata {
    /// The name of the document.
    pub name: Option<String>,
    /// A description of the contents of the document.
    pub description: Option<String>,
    /// The person or organization who created the document.
    pub author: Option<Person>,
    /// URLs associated with the location described in the document.
    pub links: Vec<Link>,
    /// The creation time of the document, in UTC.
    pub time: Option<NaiveDateTime>,
    /// Keywords by which search engines or databases can classify the data.
    pub keywords: Option<String>,
}

impl Metadata {
    /// Nothing has been filled in: every optional field is absent and there
    /// are no links.
    pub open spec fn is_blank(&self) -> bool {
        &&& self.name.is_none()
        &&& self.description.is_none()
        &&& self.author.is_none()
        &&& self.links@ == Seq::<Link>::empty()
        &&& self.time.is_none()
        &&& self.keywords.is_none()
    }
}

impl Default for Metadata {
    fn default() -> (metadata: Self)
        ensures
            metadata.is_blank(),
    {
        Metadata {
            name: None,
            description: None,
            author: None,
            links: Vec::new(),
            time: None,
            keywords: None,
        }
    }
}

} // verus!
