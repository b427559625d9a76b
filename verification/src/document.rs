//! The root of a GPX document.

use vstd::prelude::*;
use crate::metadata::Metadata;
use crate::track::Track;

verus! {

/// The root element of a GPX document.
#[derive(Debug)]
pub struct Gpx<T> {
    /// The version of the format that the document is written in. It is
    /// always there; the empty string stands for a version that is not known.
    pub version: String,
    /// Metadata about the document.
    pub metadata: Option<Metadata>,
    /// The tracks of the document, in order.
    pub tracks: Vec<Track<T>>,
}

impl<T> Gpx<T> {
    /// Nothing has been filled in: the version is the empty string, there is
    /// no metadata and there are no tracks.
    pub open spec fn is_blank(&self) -> bool {
        &&& self.version@ == Seq::<char>::empty()
        &&& self.metadata.is_none()
        &&& self.tracks@ == Seq::<Track<T>>::empty()
    }
}

impl<T> Default for Gpx<T> {
    fn default() -> (gpx: Self)
        ensures
            gpx.is_blank(),
    {
        Gpx { version: String::new(), metadata: None, tracks: Vec::new() }
    }
}

} // verus!
