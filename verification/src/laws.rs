//! Laws of the projection of tracks and segments into geometry.
//!
//! A law that speaks of what `linestring` or `multilinestring` returns takes
//! the result as a parameter, and `call_ensures` ties it to the call: the
//! law then holds of whatever a call on that entity may return.

use vstd::prelude::*;
use crate::geometry::{LineString, MultiLineString, Point};
use crate::track::{Track, TrackSegment};

verus! {

/// Deriving the linestring of a complete segment is repeatable: any two
/// results of `linestring` on the same segment hold the same points.
pub proof fn linestring_is_repeatable<T: Copy>(
    segment: &TrackSegment<T>,
    first: LineString<T>,
    second: LineString<T>,
)
    requires
        segment.is_complete(),
        call_ensures(TrackSegment::<T>::linestring, (segment,), first),
        call_ensures(TrackSegment::<T>::linestring, (segment,), second),
    ensures
        first@ == second@,
{
}

/// Deriving the multi-linestring of a complete track is repeatable: any two
/// results of `multilinestring` on the same track hold the same linestrings.
pub proof fn multilinestring_is_repeatable<T: Copy>(
    track: &Track<T>,
    first: MultiLineString<T>,
    second: MultiLineString<T>,
)
    requires
        track.is_complete(),
        call_ensures(Track::<T>::multilinestring, (track,), first),
        call_ensures(Track::<T>::multilinestring, (track,), second),
    ensures
        first@ == second@,
{
}

/// A segment without waypoints is complete, and its linestring has no
/// points.
pub proof fn empty_segment_gives_empty_linestring<T: Copy>(
    segment: &TrackSegment<T>,
    line: LineString<T>,
)
    requires
        segment.points@.len() == 0,
        call_ensures(TrackSegment::<T>::linestring, (segment,), line),
    ensures
        segment.is_complete(),
        line@ == Seq::<Point<T>>::empty(),
{
}

/// A segment of one complete waypoint is complete, and its linestring is the
/// one point of that waypoint.
pub proof fn single_waypoint_gives_single_point<T: Copy>(
    segment: &TrackSegment<T>,
    line: LineString<T>,
)
    requires
        segment.points@.len() == 1,
        segment.points@[0].is_complete(),
        call_ensures(TrackSegment::<T>::linestring, (segment,), line),
    ensures
        segment.is_complete(),
        line@ == seq![segment.points@[0].position()],
{
}

/// A track without segments is complete, and its multi-linestring has no
/// linestrings.
pub proof fn empty_track_gives_empty_multilinestring<T: Copy>(
    track: &Track<T>,
    lines: MultiLineString<T>,
)
    requires
        track.segments@.len() == 0,
        call_ensures(Track::<T>::multilinestring, (track,), lines),
    ensures
        track.is_complete(),
        lines@ == Seq::<Seq<Point<T>>>::empty(),
{
}

/// Only positions go into a path: two segments whose waypoints agree on their
/// positions, one by one, have the same path, whatever else the waypoints
/// hold.
pub proof fn path_keeps_positions_only<T>(a: TrackSegment<T>, b: TrackSegment<T>)
    requires
        a.points@.len() == b.points@.len(),
        forall|i: int| 0 <= i < a.points@.len() ==> a.points@[i].point == b.points@[i].point,
    ensures
        a.path() == b.path(),
{
}

} // verus!
