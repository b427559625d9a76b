//! Links to external resources, and the people a document names.

use vstd::prelude::*;

verus! {

/// A link to an external resource: a web page, a photo, a video clip.
#[derive(Debug)]
pub struct Link {
    /// URL of the hyperlink.
    pub href: String,
    /// Text of the hyperlink.
    pub text: Option<String>,
    /// MIME type of the content, such as `image/jpeg`.
    pub _type: Option<String>,
}

impl Link {
    /// Nothing has been filled in: the URL is the empty string and the
    /// optional fields are absent.
    pub open spec fn is_blank(&self) -> bool {
        &&& self.href@ == Seq::<char>::empty()
        &&& self.text.is_none()
        &&& self._type.is_none()
    }
}

impl Default for Link {
    fn default() -> (link: Self)
        ensures
            link.is_blank(),
    {
        Link { href: String::new(), text: None, _type: None }
    }
}

/// A person or an organization.
#[derive(Debug)]
pub struct Person {
    /// Name of the person or organization.
    pub name: Option<String>,
    /// Email address.
    pub email: Option<String>,
    /// Link to a web site or to other information about the person.
    pub link: Option<Link>,
}

impl Person {
    /// Nothing has been filled in: every field is absent.
    pub open spec fn is_blank(&self) -> bool {
        &&& self.name.is_none()
        &&& self.email.is_none()
        &&& self.link.is_none()
    }
}

impl Default for Person {
    fn default() -> (person: Self)
        ensures
            person.is_blank(),
    {
        Person { name: None, email: None, link: None }
    }
}

} // verus!
