//! What spans a shape: the points and extents from which its vertices come.
//!
//! The bounds of a shape are those of a few vertices. Some shapes are given by
//! their vertices; of the others the vertices are the corners of a box round
//! the centre, which takes arithmetic to find. A [`Span`] says which it is and
//! holds the numbers, so that the caller has the vertices in one step.

use vstd::prelude::*;
use crate::geometry::{Geometry2D, Geometry2DView};
use crate::math::{Position2D, Size2D};
use crate::scalar::Scalar;
use crate::transformation::{Transformation2DView, Transformations2D};

verus! {

/// What spans a shape, before its pipeline is applied.
#[derive(Debug, PartialEq)]
pub enum Span {
    /// These points, in this order.
    Points(Vec<Position2D>),
    /// The four corners of the axis-aligned box round `center` that is
    /// `size.width` wide and `size.height` high.
    Box { center: Position2D, size: Size2D },
    /// The four corners of the axis-aligned box round `center` that reaches
    /// `radius` to each side.
    Reach { center: Position2D, radius: Scalar },
}

/// What a [`Span`] holds.
pub enum SpanView {
    Points(Seq<Position2D>),
    Box { center: Position2D, size: Size2D },
    Reach { center: Position2D, radius: Scalar },
}

impl View for Span {
    type V = SpanView;

    open spec fn view(&self) -> SpanView {
        match *self {
            Span::Points(points) => SpanView::Points(points@),
            Span::Box { center, size } => SpanView::Box { center, size },
            Span::Reach { center, radius } => SpanView::Reach { center, radius },
        }
    }
}

impl SpanView {
    /// The number of vertices of the span: as many as it has points, or the
    /// four corners of its box.
    pub open spec fn vertex_count(self) -> nat {
        match self {
            SpanView::Points(points) => points.len(),
            SpanView::Box { .. } => 4,
            SpanView::Reach { .. } => 4,
        }
    }
}

impl Geometry2DView {
    /// What spans the shape: its position for a point, its points for a line,
    /// a polyline, a triangle and a polygon, the box of its edge length for a
    /// square, the box of its size for a rectangle, an ellipse and an image,
    /// the reach of its radius for a circle. A group is spanned by nothing of
    /// its own.
    pub open spec fn span(self) -> Option<SpanView> {
        match self {
            Geometry2DView::Point { position, .. } => Some(SpanView::Points(seq![position])),
            Geometry2DView::Line { points, .. } => Some(SpanView::Points(points)),
            Geometry2DView::Polyline { points, .. } => Some(SpanView::Points(points)),
            Geometry2DView::Triangle { points, .. } => Some(SpanView::Points(points)),
            Geometry2DView::Square { center_position, edge_length, .. } => Some(
                SpanView::Box {
                    center: center_position,
                    size: Size2D { width: edge_length, height: edge_length },
                },
            ),
            Geometry2DView::Rectangle { center_position, size, .. } => Some(
                SpanView::Box { center: center_position, size },
            ),
            Geometry2DView::Polygon { points, .. } => Some(SpanView::Points(points)),
            Geometry2DView::Circle { center_position, radius, .. } => Some(
                SpanView::Reach { center: center_position, radius },
            ),
            Geometry2DView::Ellipse { center_position, size, .. } => Some(
                SpanView::Box { center: center_position, size },
            ),
            Geometry2DView::Image { center_position, size, .. } => Some(
                SpanView::Box { center: center_position, size },
            ),
            Geometry2DView::Group(_) => None,
        }
    }

    /// The pipeline of the shape. A group has none of its own.
    pub open spec fn pipeline(self) -> Option<Seq<Transformation2DView>> {
        match self {
            Geometry2DView::Point { transformations, .. } => Some(transformations),
            Geometry2DView::Line { transformations, .. } => Some(transformations),
            Geometry2DView::Polyline { transformations, .. } => Some(transformations),
            Geometry2DView::Triangle { transformations, .. } => Some(transformations),
            Geometry2DView::Square { transformations, .. } => Some(transformations),
            Geometry2DView::Rectangle { transformations, .. } => Some(transformations),
            Geometry2DView::Polygon { transformations, .. } => Some(transformations),
            Geometry2DView::Circle { transformations, .. } => Some(transformations),
            Geometry2DView::Ellipse { transformations, .. } => Some(transformations),
            Geometry2DView::Image { transformations, .. } => Some(transformations),
            Geometry2DView::Group(_) => None,
        }
    }
}

/// A copy of the points of a slice.
fn points_of(points: &[Position2D]) -> (r: Vec<Position2D>)
    ensures
        r@ == points@,
{
    let mut r: Vec<Position2D> = Vec::new();
    let mut i: usize = 0;
    while i < points.len()
        invariant
            i <= points.len(),
            r@ == points@.subrange(0, i as int),
        decreases points.len() - i,
    {
        r.push(points[i]);
        assert(r@ =~= points@.subrange(0, i + 1));
        i += 1;
    }
    assert(points@.subrange(0, i as int) =~= points@);
    r
}

impl Geometry2D {
    /// Everything but a group has a span and a pipeline, and the span of a
    /// shape has as many vertices as a footprint must hold to fit the shape.
    pub proof fn span_counts_vertices(self)
        ensures
            self is Group <==> self@.span() is None,
            self is Group <==> self@.pipeline() is None,
            self@.span() matches Some(span) ==> self@.vertex_count() == Some(span.vertex_count()),
    {
    }

    /// What spans the shape; `None` for a group.
    pub fn span(&self) -> (r: Option<Span>)
        ensures
            match r {
                Some(span) => self@.span() == Some(span@),
                None => self@.span() is None,
            },
    {
        match self {
            Geometry2D::Point { position, .. } => {
                let mut points: Vec<Position2D> = Vec::new();
                points.push(*position);
                assert(points@ =~= seq![*position]);
                Some(Span::Points(points))
            },
            Geometry2D::Line { points, .. } => Some(Span::Points(points_of(points.as_slice()))),
            Geometry2D::Polyline { points, .. } => Some(
                Span::Points(points_of(points.as_slice())),
            ),
            Geometry2D::Triangle { points, .. } => Some(
                Span::Points(points_of(points.as_slice())),
            ),
            Geometry2D::Square { center_position, edge_length, .. } => Some(
                Span::Box {
                    center: *center_position,
                    size: Size2D::with(*edge_length, *edge_length),
                },
            ),
            Geometry2D::Rectangle { center_position, size, .. } => Some(
                Span::Box { center: *center_position, size: *size },
            ),
            Geometry2D::Polygon { points, .. } => Some(
                Span::Points(points_of(points.as_slice())),
            ),
            Geometry2D::Circle { center_position, radius, .. } => Some(
                Span::Reach { center: *center_position, radius: *radius },
            ),
            Geometry2D::Ellipse { center_position, size, .. } => Some(
                Span::Box { center: *center_position, size: *size },
            ),
            Geometry2D::Image { center_position, size, .. } => Some(
                Span::Box { center: *center_position, size: *size },
            ),
            Geometry2D::Group(_) => None,
        }
    }

    /// The pipeline of the shape; `None` for a group.
    pub fn pipeline(&self) -> (r: Option<&Transformations2D>)
        ensures
            match r {
                Some(pipeline) => self@.pipeline() == Some(pipeline@),
                None => self@.pipeline() is None,
            },
    {
        match self {
            Geometry2D::Point { transformations, .. } => Some(transformations),
            Geometry2D::Line { transformations, .. } => Some(transformations),
            Geometry2D::Polyline { transformations, .. } => Some(transformations),
            Geometry2D::Triangle { transformations, .. } => Some(transformations),
            Geometry2D::Square { transformations, .. } => Some(transformations),
            Geometry2D::Rectangle { transformations, .. } => Some(transformations),
            Geometry2D::Polygon { transformations, .. } => Some(transformations),
            Geometry2D::Circle { transformations, .. } => Some(transformations),
            Geometry2D::Ellipse { transformations, .. } => Some(transformations),
            Geometry2D::Image { transformations, .. } => Some(transformations),
            Geometry2D::Group(_) => None,
        }
    }
}

} // verus!
