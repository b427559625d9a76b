//! Waypoints: single recorded positions.

use vstd::prelude::*;
use chrono::NaiveDateTime;
use crate::geometry::{Geometry, Point, Shape, ToGeo};
use crate::link::Link;

verus! {

/// A waypoint, point of interest, or named feature on a map.
///
/// The position is what makes a waypoint: one without it is incomplete, and
/// no geometry can be derived from it. All other fields are descriptive and
/// may be absent.
#[derive(Debug)]
pub struct Waypoint<T> {
    /// The position: longitude and latitude.
    pub point: Option<Point<T>>,
    /// Elevation of the point, in meters.
    pub elevation: Option<T>,
    /// When the position was recorded or last changed, in UTC.
    pub time: Option<NaiveDateTime>,
    /// The GPS name of the waypoint.
    pub name: Option<String>,
    /// GPS waypoint comment.
    pub comment: Option<String>,
    /// A description of the waypoint, meant for the user rather than the GPS.
    pub description: Option<String>,
    /// Source of the data, to give an idea of its reliability and accuracy.
    pub source: Option<String>,
    /// Links to additional information about the waypoint.
    pub links: Vec<Link>,
    /// Text of the GPS symbol name.
    pub symbol: Option<String>,
    /// Type (classification) of the waypoint.
    pub _type: Option<String>,
}

impl<T> Waypoint<T> {
    /// Nothing has been filled in: every optional field is absent, the
    /// position included, and there are no links.
    pub open spec fn is_blank(&self) -> bool {
        &&& self.point.is_none()
        &&& self.elevation.is_none()
        &&& self.time.is_none()
        &&& self.name.is_none()
        &&& self.comment.is_none()
        &&& self.description.is_none()
        &&& self.source.is_none()
        &&& self.links@ == Seq::<Link>::empty()
        &&& self.symbol.is_none()
        &&& self._type.is_none()
    }

    /// The waypoint has its position.
    pub open spec fn spec_is_complete(&self) -> bool {
        self.point.is_some()
    }

    /// The position of a complete waypoint.
    pub open spec fn position(&self) -> Point<T>
        recommends
            self.spec_is_complete(),
    {
        self.point.unwrap()
    }

    /// Tells whether the waypoint has its position.
    #[verifier::when_used_as_spec(spec_is_complete)]
    pub fn is_complete(&self) -> (complete: bool)
        ensures
            complete == self.spec_is_complete(),
    {
        self.point.is_some()
    }
}

impl<T: Copy> Waypoint<T> {
    /// Gives the geographical point of the waypoint.
    ///
    /// The waypoint must be complete. The point returned is the stored one,
    /// never a stand-in for a missing one.
    pub fn point(&self) -> (p: Point<T>)
        requires
            self.is_complete(),
        ensures
            p == self.position(),
            self.point == Some(p),
    {
        self.point.unwrap()
    }
}

impl<T> Default for Waypoint<T> {
    fn default() -> (waypoint: Self)
        ensures
            waypoint.is_blank(),
            !waypoint.is_complete(),
    {
        Waypoint {
            point: None,
            elevation: None,
            time: None,
            name: None,
            comment: None,
            description: None,
            source: None,
            links: Vec::new(),
            symbol: None,
            _type: None,
        }
    }
}

impl<T: Copy> ToGeo<T> for Waypoint<T> {
    open spec fn has_geometry(&self) -> bool {
        self.is_complete()
    }

    open spec fn shape(&self) -> Shape<T> {
        Shape::Point(self.position())
    }

    /// The point of the waypoint, as a geometry.
    fn to_geo(&self) -> (g: Geometry<T>) {
        Geometry::Point(self.point())
    }
}

} // verus!
