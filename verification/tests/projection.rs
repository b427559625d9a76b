use gpx::{Geometry, Gpx, LineString, MultiLineString, Point, ToGeo, Track, TrackSegment, Waypoint};

fn at(lon: f64, lat: f64) -> Waypoint<f64> {
    Waypoint { point: Some(Point { x: lon, y: lat }), ..Waypoint::default() }
}

fn segment(points: Vec<Waypoint<f64>>) -> TrackSegment<f64> {
    TrackSegment { points }
}

fn track(segments: Vec<TrackSegment<f64>>) -> Track<f64> {
    Track { segments, ..Track::default() }
}

#[test]
fn point_is_the_stored_position() {
    let waypoint = at(-122.4, 37.8);
    assert!(waypoint.is_complete());
    let point = waypoint.point();
    assert_eq!(point.x, -122.4);
    assert_eq!(point.y, 37.8);
    assert_eq!(point, Point { x: -122.4, y: 37.8 });
}

#[test]
fn point_leaves_the_waypoint_as_it_was() {
    let waypoint = Waypoint {
        elevation: Some(12.5),
        name: Some(String::from("summit")),
        ..at(8.25, 46.5)
    };
    let first = waypoint.point();
    let second = waypoint.point();
    assert_eq!(first, second);
    assert_eq!(waypoint.point, Some(Point { x: 8.25, y: 46.5 }));
    assert_eq!(waypoint.elevation, Some(12.5));
    assert_eq!(waypoint.name.as_deref(), Some("summit"));
}

#[test]
fn linestring_has_one_point_per_waypoint_in_order() {
    let seg = segment(vec![at(1.0, 10.0), at(2.0, 20.0), at(3.0, 30.0), at(4.0, 40.0)]);
    let line = seg.linestring();
    assert_eq!(
        line,
        LineString(vec![
            Point { x: 1.0, y: 10.0 },
            Point { x: 2.0, y: 20.0 },
            Point { x: 3.0, y: 30.0 },
            Point { x: 4.0, y: 40.0 },
        ])
    );
    assert_eq!(line.0.len(), seg.points.len());
}

#[test]
fn linestring_keeps_repeated_positions() {
    let seg = segment(vec![at(5.0, 6.0), at(5.0, 6.0), at(7.0, 8.0), at(5.0, 6.0)]);
    let line = seg.linestring();
    assert_eq!(
        line.0,
        vec![
            Point { x: 5.0, y: 6.0 },
            Point { x: 5.0, y: 6.0 },
            Point { x: 7.0, y: 8.0 },
            Point { x: 5.0, y: 6.0 },
        ]
    );
}

#[test]
fn linestring_does_not_reorder() {
    let seg = segment(vec![at(9.0, 1.0), at(3.0, 7.0), at(6.0, 4.0)]);
    let line = seg.linestring();
    assert_eq!(line.0[0], Point { x: 9.0, y: 1.0 });
    assert_eq!(line.0[1], Point { x: 3.0, y: 7.0 });
    assert_eq!(line.0[2], Point { x: 6.0, y: 4.0 });
}

#[test]
fn linestring_drops_everything_but_positions() {
    let plain = segment(vec![at(1.5, 2.5), at(3.5, 4.5)]);
    let rich = segment(vec![
        Waypoint { elevation: Some(100.0), name: Some(String::from("start")), ..at(1.5, 2.5) },
        Waypoint { comment: Some(String::from("end")), ..at(3.5, 4.5) },
    ]);
    assert_eq!(plain.linestring(), rich.linestring());
}

#[test]
fn linestring_of_empty_segment_is_empty() {
    let seg: TrackSegment<f64> = TrackSegment::default();
    assert!(seg.is_complete());
    let line = seg.linestring();
    assert_eq!(line, LineString(vec![]));
    assert_eq!(line.0.len(), 0);
}

#[test]
fn linestring_of_single_waypoint_has_single_point() {
    let seg = segment(vec![at(-0.5, 51.5)]);
    let line = seg.linestring();
    assert_eq!(line, LineString(vec![Point { x: -0.5, y: 51.5 }]));
}

#[test]
fn linestring_twice_gives_equal_results() {
    let seg = segment(vec![at(1.0, 2.0), at(3.0, 4.0)]);
    let first = seg.linestring();
    let second = seg.linestring();
    assert_eq!(first, second);
    assert_eq!(seg.points.len(), 2);
    assert_eq!(seg.points[0].point, Some(Point { x: 1.0, y: 2.0 }));
    assert_eq!(seg.points[1].point, Some(Point { x: 3.0, y: 4.0 }));
}

#[test]
fn multilinestring_has_one_linestring_per_segment_in_order() {
    let trk = track(vec![
        segment(vec![at(1.0, 1.0)]),
        segment(vec![]),
        segment(vec![at(2.0, 2.0), at(3.0, 3.0), at(4.0, 4.0)]),
    ]);
    let lines = trk.multilinestring();
    assert_eq!(lines.0.len(), 3);
    assert_eq!(lines.0[0], LineString(vec![Point { x: 1.0, y: 1.0 }]));
    assert_eq!(lines.0[1], LineString(vec![]));
    assert_eq!(
        lines.0[2],
        LineString(vec![
            Point { x: 2.0, y: 2.0 },
            Point { x: 3.0, y: 3.0 },
            Point { x: 4.0, y: 4.0 },
        ])
    );
}

#[test]
fn multilinestring_holds_the_linestring_of_each_segment() {
    let trk = track(vec![
        segment(vec![at(10.0, 20.0), at(30.0, 40.0)]),
        segment(vec![at(50.0, 60.0)]),
    ]);
    let lines = trk.multilinestring();
    assert_eq!(lines.0.len(), trk.segments.len());
    assert_eq!(lines.0[0], trk.segments[0].linestring());
    assert_eq!(lines.0[1], trk.segments[1].linestring());
}

#[test]
fn multilinestring_of_empty_track_is_empty() {
    let trk: Track<f64> = Track::default();
    assert!(trk.is_complete());
    let lines = trk.multilinestring();
    assert_eq!(lines, MultiLineString(vec![]));
}

#[test]
fn multilinestring_twice_gives_equal_results() {
    let trk = track(vec![segment(vec![at(1.0, 2.0)]), segment(vec![at(3.0, 4.0), at(5.0, 6.0)])]);
    let first = trk.multilinestring();
    let second = trk.multilinestring();
    assert_eq!(first, second);
    assert_eq!(trk.segments.len(), 2);
}

#[test]
fn two_segments_in_a_document() {
    let segment_a = segment(vec![at(-122.4, 37.8), at(-122.41, 37.81)]);
    let segment_b = segment(vec![at(-122.42, 37.82)]);
    let gpx = Gpx {
        version: String::from("1.1"),
        tracks: vec![track(vec![segment_a, segment_b])],
        ..Gpx::default()
    };
    assert_eq!(gpx.version, "1.1");
    assert_eq!(gpx.tracks.len(), 1);
    let lines = gpx.tracks[0].multilinestring();
    assert_eq!(
        lines,
        MultiLineString(vec![
            LineString(vec![Point { x: -122.4, y: 37.8 }, Point { x: -122.41, y: 37.81 }]),
            LineString(vec![Point { x: -122.42, y: 37.82 }]),
        ])
    );
}

#[test]
fn complete_segment_is_told_from_incomplete() {
    assert!(segment(vec![at(1.0, 2.0), at(3.0, 4.0)]).is_complete());
    assert!(!segment(vec![Waypoint::default()]).is_complete());
    assert!(!segment(vec![Waypoint::default(), at(1.0, 2.0)]).is_complete());
    assert!(!segment(vec![at(1.0, 2.0), Waypoint::default(), at(3.0, 4.0)]).is_complete());
    assert!(!segment(vec![at(1.0, 2.0), at(3.0, 4.0), Waypoint::default()]).is_complete());
}

#[test]
fn waypoint_with_description_only_is_incomplete() {
    let waypoint: Waypoint<f64> = Waypoint {
        elevation: Some(0.0),
        name: Some(String::from("somewhere")),
        ..Waypoint::default()
    };
    assert!(!waypoint.is_complete());
}

#[test]
fn complete_track_is_told_from_incomplete() {
    assert!(track(vec![segment(vec![at(1.0, 2.0)]), segment(vec![])]).is_complete());
    assert!(!track(vec![segment(vec![Waypoint::default()])]).is_complete());
    assert!(!track(vec![
        segment(vec![at(1.0, 2.0)]),
        segment(vec![at(3.0, 4.0), Waypoint::default()]),
        segment(vec![at(5.0, 6.0)]),
    ])
    .is_complete());
}

#[test]
fn waypoint_to_geo_is_its_point() {
    let geometry = at(-122.4, 37.8).to_geo();
    assert_eq!(geometry, Geometry::Point(Point { x: -122.4, y: 37.8 }));
}

#[test]
fn segment_to_geo_is_its_linestring() {
    let seg = segment(vec![at(1.0, 2.0), at(3.0, 4.0)]);
    let geometry = seg.to_geo();
    assert_eq!(
        geometry,
        Geometry::LineString(LineString(vec![Point { x: 1.0, y: 2.0 }, Point { x: 3.0, y: 4.0 }]))
    );
    assert_eq!(geometry, Geometry::LineString(seg.linestring()));
}

#[test]
fn track_to_geo_is_its_multilinestring() {
    let trk = track(vec![segment(vec![at(1.0, 2.0)]), segment(vec![at(3.0, 4.0)])]);
    let geometry = trk.to_geo();
    assert_eq!(
        geometry,
        Geometry::MultiLineString(MultiLineString(vec![
            LineString(vec![Point { x: 1.0, y: 2.0 }]),
            LineString(vec![Point { x: 3.0, y: 4.0 }]),
        ]))
    );
    assert_eq!(geometry, Geometry::MultiLineString(trk.multilinestring()));
}

#[test]
fn geometries_of_different_kinds_differ() {
    let waypoint = at(1.0, 2.0);
    let seg = segment(vec![at(1.0, 2.0)]);
    let trk = track(vec![segment(vec![at(1.0, 2.0)])]);
    assert!(matches!(waypoint.to_geo(), Geometry::Point(_)));
    assert!(matches!(seg.to_geo(), Geometry::LineString(_)));
    assert!(matches!(trk.to_geo(), Geometry::MultiLineString(_)));
    assert_ne!(seg.to_geo(), trk.to_geo());
}

#[test]
fn coordinates_may_be_integers() {
    let seg = TrackSegment {
        points: vec![
            Waypoint { point: Some(Point { x: -1224i64, y: 378i64 }), ..Waypoint::default() },
            Waypoint { point: Some(Point { x: -1225i64, y: 379i64 }), ..Waypoint::default() },
        ],
    };
    assert_eq!(
        seg.linestring(),
        LineString(vec![Point { x: -1224, y: 378 }, Point { x: -1225, y: 379 }])
    );
}
