//! Tracks and their segments, and the linestrings they stand for.

use vstd::prelude::*;
use crate::geometry::{Geometry, LineString, MultiLineString, Point, Shape, ToGeo};
use crate::link::Link;
use crate::waypoint::Waypoint;

verus! {

/// A list of track points that are logically connected in order.
///
/// Where GPS reception was lost, or the receiver was turned off, a track
/// starts a new segment for each continuous span of data.
#[derive(Debug)]
pub struct TrackSegment<T> {
    /// The points of the segment, in the order in which they were recorded.
    pub points: Vec<Waypoint<T>>,
}

impl<T> TrackSegment<T> {
    /// The segment holds no points.
    pub open spec fn is_blank(&self) -> bool {
        self.points@ == Seq::<Waypoint<T>>::empty()
    }

    /// Every waypoint of the segment has its position.
    pub open spec fn spec_is_complete(&self) -> bool {
        forall|i: int| 0 <= i < self.points@.len() ==> (#[trigger] self.points@[i]).is_complete()
    }

    /// The positions of the waypoints of a complete segment: one for each
    /// waypoint, in the order of the waypoints.
    pub open spec fn path(&self) -> Seq<Point<T>>
        recommends
            self.spec_is_complete(),
    {
        Seq::new(self.points@.len(), |i: int| self.points@[i].position())
    }

    /// Tells whether every waypoint of the segment has its position.
    #[verifier::when_used_as_spec(spec_is_complete)]
    pub fn is_complete(&self) -> (complete: bool)
        ensures
            complete == self.spec_is_complete(),
    {
        let mut i: usize = 0;
        while i < self.points.len()
            invariant
                i <= self.points@.len(),
                forall|j: int| 0 <= j < i ==> (#[trigger] self.points@[j]).is_complete(),
            decreases self.points@.len() - i,
        {
            if !self.points[i].is_complete() {
                return false;
            }
            i += 1;
        }
        true
    }
}

impl<T: Copy> TrackSegment<T> {
    /// Gives the linestring of the segment's points, the sequence of points
    /// that comprises the track segment.
    ///
    /// The segment must be complete. The linestring holds the position of
    /// each waypoint, in the order of the waypoints, and nothing else.
    pub fn linestring(&self) -> (line: LineString<T>)
        requires
            self.is_complete(),
        ensures
            line@ == self.path(),
            line@.len() == self.points@.len(),
            forall|i: int| 0 <= i < self.points@.len() ==> self.points@[i].point == Some(line@[i]),
    {
        let mut line: Vec<Point<T>> = Vec::new();
        let mut i: usize = 0;
        while i < self.points.len()
            invariant
                self.is_complete(),
                i <= self.points@.len(),
                line@.len() == i,
                forall|j: int| 0 <= j < i ==> line@[j] == (#[trigger] self.points@[j]).position(),
            decreases self.points@.len() - i,
        {
            line.push(self.points[i].point());
            i += 1;
        }
        LineString(line)
    }
}

impl<T> Default for TrackSegment<T> {
    fn default() -> (segment: Self)
        ensures
            segment.is_blank(),
    {
        TrackSegment { points: Vec::new() }
    }
}

impl<T: Copy> ToGeo<T> for TrackSegment<T> {
    open spec fn has_geometry(&self) -> bool {
        self.is_complete()
    }

    open spec fn shape(&self) -> Shape<T> {
        Shape::LineString(self.path())
    }

    /// The linestring of the segment, as a geometry.
    fn to_geo(&self) -> (g: Geometry<T>) {
        Geometry::LineString(self.linestring())
    }
}

/// An ordered list of points describing a path, in one or more segments.
#[derive(Debug)]
pub struct Track<T> {
    /// GPS name of the track.
    pub name: Option<String>,
    /// GPS comment for the track.
    pub comment: Option<String>,
    /// User description of the track.
    pub description: Option<String>,
    /// Source of the data, to give an idea of its reliability and accuracy.
    pub source: Option<String>,
    /// Links to external information about the track.
    pub links: Vec<Link>,
    /// Type (classification) of the track.
    pub _type: Option<String>,
    /// The segments of the track, in order.
    pub segments: Vec<TrackSegment<T>>,
}

impl<T> Track<T> {
    /// Nothing has been filled in: every optional field is absent, and there
    /// are neither links nor segments.
    pub open spec fn is_blank(&self) -> bool {
        &&& self.name.is_none()
        &&& self.comment.is_none()
        &&& self.description.is_none()
        &&& self.source.is_none()
        &&& self.links@ == Seq::<Link>::empty()
        &&& self._type.is_none()
        &&& self.segments@ == Seq::<TrackSegment<T>>::empty()
    }

    /// Every segment of the track is complete.
    pub open spec fn spec_is_complete(&self) -> bool {
        forall|i: int|
            0 <= i < self.segments@.len() ==> (#[trigger] self.segments@[i]).is_complete()
    }

    /// The paths of the segments of a complete track: one for each segment,
    /// in the order of the segments.
    pub open spec fn paths(&self) -> Seq<Seq<Point<T>>>
        recommends
            self.spec_is_complete(),
    {
        Seq::new(self.segments@.len(), |i: int| self.segments@[i].path())
    }

    /// Tells whether every waypoint of every segment has its position.
    #[verifier::when_used_as_spec(spec_is_complete)]
    pub fn is_complete(&self) -> (complete: bool)
        ensures
            complete == self.spec_is_complete(),
    {
        let mut i: usize = 0;
        while i < self.segments.len()
            invariant
                i <= self.segments@.len(),
                forall|j: int| 0 <= j < i ==> (#[trigger] self.segments@[j]).is_complete(),
            decreases self.segments@.len() - i,
        {
            if !self.segments[i].is_complete() {
                return false;
            }
            i += 1;
        }
        true
    }
}

impl<T: Copy> Track<T> {
    /// Gives the multi-linestring that this track represents, which is
    /// multiple linestrings.
    ///
    /// The track must be complete. The result holds the linestring of each
    /// segment, in the order of the segments.
    pub fn multilinestring(&self) -> (lines: MultiLineString<T>)
        requires
            self.is_complete(),
        ensures
            lines@ == self.paths(),
            lines@.len() == self.segments@.len(),
            forall|i: int|
                0 <= i < self.segments@.len() ==> lines@[i] == (#[trigger] self.segments@[i]).path(),
    {
        let mut lines: Vec<LineString<T>> = Vec::new();
        let mut i: usize = 0;
        while i < self.segments.len()
            invariant
                self.is_complete(),
                i <= self.segments@.len(),
                lines@.len() == i,
                forall|j: int| 0 <= j < i ==> lines@[j]@ == (#[trigger] self.segments@[j]).path(),
            decreases self.segments@.len() - i,
        {
            lines.push(self.segments[i].linestring());
            i += 1;
        }
        MultiLineString(lines)
    }
}

impl<T> Default for Track<T> {
    fn default() -> (track: Self)
        ensures
            track.is_blank(),
    {
        Track {
            name: None,
            comment: None,
            description: None,
            source: None,
            links: Vec::new(),
            _type: None,
            segments: Vec::new(),
        }
    }
}

impl<T: Copy> ToGeo<T> for Track<T> {
    open spec fn has_geometry(&self) -> bool {
        self.is_complete()
    }

    open spec fn shape(&self) -> Shape<T> {
        Shape::MultiLineString(self.paths())
    }

    /// The multi-linestring of the track, as a geometry.
    fn to_geo(&self) -> (g: Geometry<T>) {
        Geometry::MultiLineString(self.multilinestring())
    }
}

} // verus!
