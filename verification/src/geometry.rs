//! The geometric shapes that the positional data of a document is projected into.
//!
//! Every shape is generic over the coordinate number `T`. The model stores and
//! copies coordinates; it never computes with them.

use vstd::prelude::*;

verus! {

/// A position on the map.
#[derive(Debug, PartialEq)]
pub struct Point<T> {
    /// The longitude.
    pub x: T,
    /// The latitude.
    pub y: T,
}

impl<T: Copy> Clone for Point<T> {
    fn clone(&self) -> (p: Self)
        ensures
            p == *self,
    {
        *self
    }
}

impl<T: Copy> Copy for Point<T> {}

/// An ordered sequence of points. A linestring of no points, or of one, is
/// degenerate but legal.
#[derive(Debug, PartialEq)]
pub struct LineString<T>(pub Vec<Point<T>>);

impl<T> View for LineString<T> {
    type V = Seq<Point<T>>;

    /// The points, in order.
    open spec fn view(&self) -> Seq<Point<T>> {
        self.0@
    }
}

/// An ordered collection of linestrings.
#[derive(Debug, PartialEq)]
pub struct MultiLineString<T>(pub Vec<LineString<T>>);

impl<T> View for MultiLineString<T> {
    type V = Seq<Seq<Point<T>>>;

    /// The points of each linestring, linestring by linestring, in order.
    open spec fn view(&self) -> Seq<Seq<Point<T>>> {
        Seq::new(self.0@.len(), |i: int| self.0@[i]@)
    }
}

/// Any of the shapes, tagged by its kind.
#[derive(Debug, PartialEq)]
pub enum Geometry<T> {
    Point(Point<T>),
    LineString(LineString<T>),
    MultiLineString(MultiLineString<T>),
}

/// What a [`Geometry`] holds, as mathematical sequences.
pub enum Shape<T> {
    Point(Point<T>),
    LineString(Seq<Point<T>>),
    MultiLineString(Seq<Seq<Point<T>>>),
}

impl<T> View for Geometry<T> {
    type V = Shape<T>;

    open spec fn view(&self) -> Shape<T> {
        match *self {
            Geometry::Point(p) => Shape::Point(p),
            Geometry::LineString(l) => Shape::LineString(l@),
            Geometry::MultiLineString(m) => Shape::MultiLineString(m@),
        }
    }
}

/// An entity that can be turned into a tagged geometry, whatever its own kind.
pub trait ToGeo<T> {
    /// Whether every position that the geometry is made of is present.
    spec fn has_geometry(&self) -> bool;

    /// The shape that the entity stands for.
    spec fn shape(&self) -> Shape<T>;

    /// The geometry of the entity. Only its positions go into it: elevation,
    /// time and descriptions are left behind.
    fn to_geo(&self) -> (g: Geometry<T>)
        requires
            self.has_geometry(),
        ensures
            g@ == self.shape(),
    ;
}

} // verus!
