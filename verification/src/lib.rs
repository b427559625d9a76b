//! In-memory data model of GPX (GPS Exchange Format) documents, with verified
//! projections of the positional data into points, linestrings and
//! multi-linestrings.
//!
//! A document is a tree: a [`Gpx`] owns its [`Metadata`] and its [`Track`]s,
//! a track owns its [`TrackSegment`]s, and a segment owns its [`Waypoint`]s.
//! Every list keeps the order in which it was filled, and an absent optional
//! field stays absent: it is never turned into an empty string.
//!
//! Geometry is derived from complete entities only, that is from waypoints
//! that have their position. `is_complete` tells whether an entity is.

pub mod document;
pub mod geometry;
pub mod laws;
pub mod link;
pub mod metadata;
pub mod time;
pub mod track;
pub mod waypoint;

pub use crate::document::Gpx;
pub use crate::geometry::{Geometry, LineString, MultiLineString, Point, Shape, ToGeo};
pub use crate::link::{Link, Person};
pub use crate::metadata::Metadata;
pub use crate::track::{Track, TrackSegment};
pub use crate::waypoint::Waypoint;
