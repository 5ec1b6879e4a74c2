//! Shapes and trees of shapes.
//!
//! A [`Geometry2D`] is one shape with its style and its own pipeline, or a group
//! of geometries. A group owns its members, so a geometry is a finite tree; it
//! has no pipeline of its own.

use vstd::prelude::*;
use crate::color::Color;
use crate::math::{Position2D, Size2D};
use crate::scalar::{Scalar, ONE_BITS, ZERO_BITS};
use crate::style::{CornerShape, LineShape};
use crate::texture::{TextureSource, TextureSourceView};
use crate::transformation::{Transformation2DView, Transformations2D};

verus! {

/// The shapes of the plane.
#[allow(inconsistent_fields)]
#[derive(Debug, PartialEq)]
pub enum Geometry2D {
    /// A single point.
    Point {
        position: Position2D,
        color: Color,
        transformations: Transformations2D,
    },
    /// A segment between two points.
    Line {
        points: [Position2D; 2],
        line_color: Color,
        line_width: Scalar,
        line_shape: LineShape,
        transformations: Transformations2D,
    },
    /// An open chain of segments through the points.
    Polyline {
        points: Vec<Position2D>,
        line_color: Color,
        line_width: Scalar,
        line_shape: LineShape,
        transformations: Transformations2D,
    },
    /// A triangle with the three points as corners.
    Triangle {
        points: [Position2D; 3],
        fill_color: Color,
        border_color: Color,
        border_width: Scalar,
        transformations: Transformations2D,
    },
    /// An axis-aligned square around its centre.
    Square {
        center_position: Position2D,
        edge_length: Scalar,
        fill_color: Color,
        border_color: Color,
        border_width: Scalar,
        corner_shape: CornerShape,
        transformations: Transformations2D,
    },
    /// An axis-aligned rectangle around its centre.
    Rectangle {
        center_position: Position2D,
        size: Size2D,
        fill_color: Color,
        border_color: Color,
        border_width: Scalar,
        corner_shape: CornerShape,
        transformations: Transformations2D,
    },
    /// A closed chain of segments through the points.
    Polygon {
        points: Vec<Position2D>,
        fill_color: Color,
        border_color: Color,
        border_width: Scalar,
        transformations: Transformations2D,
    },
    /// A circle around its centre.
    Circle {
        center_position: Position2D,
        radius: Scalar,
        fill_color: Color,
        border_color: Color,
        border_width: Scalar,
        transformations: Transformations2D,
    },
    /// An axis-aligned ellipse around its centre; the size gives its two
    /// diameters.
    Ellipse {
        center_position: Position2D,
        size: Size2D,
        fill_color: Color,
        border_color: Color,
        border_width: Scalar,
        transformations: Transformations2D,
    },
    /// A texture, or the part of it inside the source rectangle, drawn into an
    /// axis-aligned rectangle around its centre.
    Image {
        center_position: Position2D,
        size: Size2D,
        texture_source: TextureSource,
        source_rectangle: Option<(Position2D, Size2D)>,
        fill_color: Option<Color>,
        transformations: Transformations2D,
    },
    /// The geometries of the list, taken together.
    Group(Vec<Geometry2D>),
}

/// What a [`Geometry2D`] holds: the tree with every list as a sequence.
#[allow(inconsistent_fields)]
pub enum Geometry2DView {
    Point {
        position: Position2D,
        color: Color,
        transformations: Seq<Transformation2DView>,
    },
    Line {
        points: Seq<Position2D>,
        line_color: Color,
        line_width: Scalar,
        line_shape: LineShape,
        transformations: Seq<Transformation2DView>,
    },
    Polyline {
        points: Seq<Position2D>,
        line_color: Color,
        line_width: Scalar,
        line_shape: LineShape,
        transformations: Seq<Transformation2DView>,
    },
    Triangle {
        points: Seq<Position2D>,
        fill_color: Color,
        border_color: Color,
        border_width: Scalar,
        transformations: Seq<Transformation2DView>,
    },
    Square {
        center_position: Position2D,
        edge_length: Scalar,
        fill_color: Color,
        border_color: Color,
        border_width: Scalar,
        corner_shape: CornerShape,
        transformations: Seq<Transformation2DView>,
    },
    Rectangle {
        center_position: Position2D,
        size: Size2D,
        fill_color: Color,
        border_color: Color,
        border_width: Scalar,
        corner_shape: CornerShape,
        transformations: Seq<Transformation2DView>,
    },
    Polygon {
        points: Seq<Position2D>,
        fill_color: Color,
        border_color: Color,
        border_width: Scalar,
        transformations: Seq<Transformation2DView>,
    },
    Circle {
        center_position: Position2D,
        radius: Scalar,
        fill_color: Color,
        border_color: Color,
        border_width: Scalar,
        transformations: Seq<Transformation2DView>,
    },
    Ellipse {
        center_position: Position2D,
        size: Size2D,
        fill_color: Color,
        border_color: Color,
        border_width: Scalar,
        transformations: Seq<Transformation2DView>,
    },
    Image {
        center_position: Position2D,
        size: Size2D,
        texture_source: TextureSourceView,
        source_rectangle: Option<(Position2D, Size2D)>,
        fill_color: Option<Color>,
        transformations: Seq<Transformation2DView>,
    },
    Group(Seq<Geometry2DView>),
}

/// The views of a list of geometries, item by item.
pub open spec fn models_of(list: Seq<Geometry2D>) -> Seq<Geometry2DView> {
    list.map_values(|g: Geometry2D| g.model())
}

impl Geometry2D {
    /// The geometry as a value of the model.
    pub open spec fn model(self) -> Geometry2DView
        decreases self,
    {
        match self {
            Geometry2D::Point { position, color, transformations } => Geometry2DView::Point {
                position,
                color,
                transformations: transformations@,
            },
            Geometry2D::Line {
                points,
                line_color,
                line_width,
                line_shape,
                transformations,
            } => Geometry2DView::Line {
                points: points@,
                line_color,
                line_width,
                line_shape,
                transformations: transformations@,
            },
            Geometry2D::Polyline {
                points,
                line_color,
                line_width,
                line_shape,
                transformations,
            } => Geometry2DView::Polyline {
                points: points@,
                line_color,
                line_width,
                line_shape,
                transformations: transformations@,
            },
            Geometry2D::Triangle {
                points,
                fill_color,
                border_color,
                border_width,
                transformations,
            } => Geometry2DView::Triangle {
                points: points@,
                fill_color,
                border_color,
                border_width,
                transformations: transformations@,
            },
            Geometry2D::Square {
                center_position,
                edge_length,
                fill_color,
                border_color,
                border_width,
                corner_shape,
                transformations,
            } => Geometry2DView::Square {
                center_position,
                edge_length,
                fill_color,
                border_color,
                border_width,
                corner_shape,
                transformations: transformations@,
            },
            Geometry2D::Rectangle {
                center_position,
                size,
                fill_color,
                border_color,
                border_width,
                corner_shape,
                transformations,
            } => Geometry2DView::Rectangle {
                center_position,
                size,
                fill_color,
                border_color,
                border_width,
                corner_shape,
                transformations: transformations@,
            },
            Geometry2D::Polygon {
                points,
                fill_color,
                border_color,
                border_width,
                transformations,
            } => Geometry2DView::Polygon {
                points: points@,
                fill_color,
                border_color,
                border_width,
                transformations: transformations@,
            },
            Geometry2D::Circle {
                center_position,
                radius,
                fill_color,
                border_color,
                border_width,
                transformations,
            } => Geometry2DView::Circle {
                center_position,
                radius,
                fill_color,
                border_color,
                border_width,
                transformations: transformations@,
            },
            Geometry2D::Ellipse {
                center_position,
                size,
                fill_color,
                border_color,
                border_width,
                transformations,
            } => Geometry2DView::Ellipse {
                center_position,
                size,
                fill_color,
                border_color,
                border_width,
                transformations: transformations@,
            },
            Geometry2D::Image {
                center_position,
                size,
                texture_source,
                source_rectangle,
                fill_color,
                transformations,
            } => Geometry2DView::Image {
                center_position,
                size,
                texture_source: texture_source@,
                source_rectangle,
                fill_color,
                transformations: transformations@,
            },
            Geometry2D::Group(geometries) => Geometry2DView::Group(
                geometries@.map_values(
                    |g: Geometry2D|
                        // true of every item of the list: it shows that the definition ends
                        if decreases_to!(self => g) {
                            g.model()
                        } else {
                            Geometry2DView::Group(Seq::empty())
                        },
                ),
            ),
        }
    }

    /// The view of a group lists the views of its members.
    pub proof fn group_view(geometries: Vec<Geometry2D>)
        ensures
            Geometry2D::Group(geometries)@ == Geometry2DView::Group(models_of(geometries@)),
    {
        let whole = Geometry2D::Group(geometries);
        assert(decreases_to!(whole => whole->Group_0));
        assert forall|i: int| 0 <= i < geometries@.len() implies decreases_to!(
            whole => geometries@[i],
        ) by {
            vstd::std_specs::vec::axiom_vec_index_decreases(geometries, i);
        }
        assert(whole@->Group_0 =~= models_of(geometries@));
    }
}

impl View for Geometry2D {
    type V = Geometry2DView;

    open spec fn view(&self) -> Geometry2DView {
        self.model()
    }
}

/// A copy of a list of points.
fn copy_of_points(points: &Vec<Position2D>) -> (r: Vec<Position2D>)
    ensures
        r@ == points@,
{
    let r = points.clone();
    assert(r@ =~= points@);
    r
}

impl Clone for Geometry2D {
    /// A copy that holds the same as `self` and shares nothing with it.
    fn clone(&self) -> (r: Geometry2D)
        ensures
            r@ == self@,
        decreases self,
    {
        match self {
            Geometry2D::Point { position, color, transformations } => Geometry2D::Point {
                position: *position,
                color: *color,
                transformations: transformations.clone(),
            },
            Geometry2D::Line {
                points,
                line_color,
                line_width,
                line_shape,
                transformations,
            } => Geometry2D::Line {
                points: *points,
                line_color: *line_color,
                line_width: *line_width,
                line_shape: *line_shape,
                transformations: transformations.clone(),
            },
            Geometry2D::Polyline {
                points,
                line_color,
                line_width,
                line_shape,
                transformations,
            } => Geometry2D::Polyline {
                points: copy_of_points(points),
                line_color: *line_color,
                line_width: *line_width,
                line_shape: *line_shape,
                transformations: transformations.clone(),
            },
            Geometry2D::Triangle {
                points,
                fill_color,
                border_color,
                border_width,
                transformations,
            } => Geometry2D::Triangle {
                points: *points,
                fill_color: *fill_color,
                border_color: *border_color,
                border_width: *border_width,
                transformations: transformations.clone(),
            },
            Geometry2D::Square {
                center_position,
                edge_length,
                fill_color,
                border_color,
                border_width,
                corner_shape,
                transformations,
            } => Geometry2D::Square {
                center_position: *center_position,
                edge_length: *edge_length,
                fill_color: *fill_color,
                border_color: *border_color,
                border_width: *border_width,
                corner_shape: *corner_shape,
                transformations: transformations.clone(),
            },
            Geometry2D::Rectangle {
                center_position,
                size,
                fill_color,
                border_color,
                border_width,
                corner_shape,
                transformations,
            } => Geometry2D::Rectangle {
                center_position: *center_position,
                size: *size,
                fill_color: *fill_color,
                border_color: *border_color,
                border_width: *border_width,
                corner_shape: *corner_shape,
                transformations: transformations.clone(),
            },
            Geometry2D::Polygon {
                points,
                fill_color,
                border_color,
                border_width,
                transformations,
            } => Geometry2D::Polygon {
                points: copy_of_points(points),
                fill_color: *fill_color,
                border_color: *border_color,
                border_width: *border_width,
                transformations: transformations.clone(),
            },
            Geometry2D::Circle {
                center_position,
                radius,
                fill_color,
                border_color,
                border_width,
                transformations,
            } => Geometry2D::Circle {
                center_position: *center_position,
                radius: *radius,
                fill_color: *fill_color,
                border_color: *border_color,
                border_width: *border_width,
                transformations: transformations.clone(),
            },
            Geometry2D::Ellipse {
                center_position,
                size,
                fill_color,
                border_color,
                border_width,
                transformations,
            } => Geometry2D::Ellipse {
                center_position: *center_position,
                size: *size,
                fill_color: *fill_color,
                border_color: *border_color,
                border_width: *border_width,
                transformations: transformations.clone(),
            },
            Geometry2D::Image {
                center_position,
                size,
                texture_source,
                source_rectangle,
                fill_color,
                transformations,
            } => Geometry2D::Image {
                center_position: *center_position,
                size: *size,
                texture_source: texture_source.clone(),
                source_rectangle: *source_rectangle,
                fill_color: *fill_color,
                transformations: transformations.clone(),
            },
            Geometry2D::Group(geometries) => {
                let mut copies: Vec<Geometry2D> = Vec::new();
                let mut i: usize = 0;
                while i < geometries.len()
                    invariant
                        i <= geometries.len(),
                        *self == Geometry2D::Group(*geometries),
                        copies@.len() == i,
                        forall|k: int| 0 <= k < i ==> (#[trigger] copies@[k])@ == geometries@[k]@,
                    decreases geometries.len() - i,
                {
                    proof {
                        assert(decreases_to!(*self => self->Group_0));
                        vstd::std_specs::vec::axiom_vec_index_decreases(*geometries, i as int);
                    }
                    copies.push(geometries[i].clone());
                    i += 1;
                }
                proof {
                    Geometry2D::group_view(*geometries);
                    Geometry2D::group_view(copies);
                    assert(models_of(copies@) =~= models_of(geometries@));
                }
                Geometry2D::Group(copies)
            },
        }
    }
}

impl Geometry2D {
    /// A point at the given position: black.
    pub fn point(position: Position2D) -> (r: Geometry2D)
        ensures
            r@ == (Geometry2DView::Point {
                position: position,
                color: Color { red: 0, green: 0, blue: 0, alpha: 255 },
                transformations: Seq::empty(),
            }),
    {
        Geometry2D::Point {
            position: position,
            color: Color::black(),
            transformations: Transformations2D::default(),
        }
    }

    /// A line from `start` to `end`: black, of width 1, with square ends.
    pub fn line(start: Position2D, end: Position2D) -> (r: Geometry2D)
        ensures
            r@ == (Geometry2DView::Line {
                points: seq![start, end],
                line_color: Color { red: 0, green: 0, blue: 0, alpha: 255 },
                line_width: Scalar { bits: ONE_BITS },
                line_shape: LineShape::Square,
                transformations: Seq::empty(),
            }),
    {
        Geometry2D::Line {
            points: [start, end],
            line_color: Color::black(),
            line_width: Scalar::one(),
            line_shape: LineShape::Square,
            transformations: Transformations2D::default(),
        }
    }

    /// A polyline through the given points: black, of width 1, with square
    /// ends.
    pub fn polyline(points: Vec<Position2D>) -> (r: Geometry2D)
        ensures
            r@ == (Geometry2DView::Polyline {
                points: points@,
                line_color: Color { red: 0, green: 0, blue: 0, alpha: 255 },
                line_width: Scalar { bits: ONE_BITS },
                line_shape: LineShape::Square,
                transformations: Seq::empty(),
            }),
    {
        Geometry2D::Polyline {
            points: points,
            line_color: Color::black(),
            line_width: Scalar::one(),
            line_shape: LineShape::Square,
            transformations: Transformations2D::default(),
        }
    }

    /// A triangle with the given corners: filled black, with a transparent
    /// border of width 0.
    pub fn triangle(
        position_a: Position2D,
        position_b: Position2D,
        position_c: Position2D,
    ) -> (r: Geometry2D)
        ensures
            r@ == (Geometry2DView::Triangle {
                points: seq![position_a, position_b, position_c],
                fill_color: Color { red: 0, green: 0, blue: 0, alpha: 255 },
                border_color: Color { red: 0, green: 0, blue: 0, alpha: 0 },
                border_width: Scalar { bits: ZERO_BITS },
                transformations: Seq::empty(),
            }),
    {
        Geometry2D::Triangle {
            points: [position_a, position_b, position_c],
            fill_color: Color::black(),
            border_color: Color::transparent(),
            border_width: Scalar::zero(),
            transformations: Transformations2D::default(),
        }
    }

    /// A square around `center_position`: filled black, with a transparent
    /// border of width 0 and square corners.
    pub fn square(center_position: Position2D, edge_length: Scalar) -> (r: Geometry2D)
        ensures
            r@ == (Geometry2DView::Square {
                center_position: center_position,
                edge_length: edge_length,
                fill_color: Color { red: 0, green: 0, blue: 0, alpha: 255 },
                border_color: Color { red: 0, green: 0, blue: 0, alpha: 0 },
                border_width: Scalar { bits: ZERO_BITS },
                corner_shape: CornerShape::Square,
                transformations: Seq::empty(),
            }),
    {
        Geometry2D::Square {
            center_position: center_position,
            edge_length: edge_length,
            fill_color: Color::black(),
            border_color: Color::transparent(),
            border_width: Scalar::zero(),
            corner_shape: CornerShape::Square,
            transformations: Transformations2D::default(),
        }
    }

    /// A rectangle around `center_position`: filled black, with a transparent
    /// border of width 0 and square corners.
    pub fn rectangle(center_position: Position2D, size: Size2D) -> (r: Geometry2D)
        ensures
            r@ == (Geometry2DView::Rectangle {
                center_position: center_position,
                size: size,
                fill_color: Color { red: 0, green: 0, blue: 0, alpha: 255 },
                border_color: Color { red: 0, green: 0, blue: 0, alpha: 0 },
                border_width: Scalar { bits: ZERO_BITS },
                corner_shape: CornerShape::Square,
                transformations: Seq::empty(),
            }),
    {
        Geometry2D::Rectangle {
            center_position: center_position,
            size: size,
            fill_color: Color::black(),
            border_color: Color::transparent(),
            border_width: Scalar::zero(),
            corner_shape: CornerShape::Square,
            transformations: Transformations2D::default(),
        }
    }

    /// A polygon through the given points: filled black, with a transparent
    /// border of width 0.
    pub fn polygon(points: Vec<Position2D>) -> (r: Geometry2D)
        ensures
            r@ == (Geometry2DView::Polygon {
                points: points@,
                fill_color: Color { red: 0, green: 0, blue: 0, alpha: 255 },
                border_color: Color { red: 0, green: 0, blue: 0, alpha: 0 },
                border_width: Scalar { bits: ZERO_BITS },
                transformations: Seq::empty(),
            }),
    {
        Geometry2D::Polygon {
            points: points,
            fill_color: Color::black(),
            border_color: Color::transparent(),
            border_width: Scalar::zero(),
            transformations: Transformations2D::default(),
        }
    }

    /// A circle around `center_position`: filled black, with a transparent
    /// border of width 0.
    pub fn circle(center_position: Position2D, radius: Scalar) -> (r: Geometry2D)
        ensures
            r@ == (Geometry2DView::Circle {
                center_position: center_position,
                radius: radius,
                fill_color: Color { red: 0, green: 0, blue: 0, alpha: 255 },
                border_color: Color { red: 0, green: 0, blue: 0, alpha: 0 },
                border_width: Scalar { bits: ZERO_BITS },
                transformations: Seq::empty(),
            }),
    {
        Geometry2D::Circle {
            center_position: center_position,
            radius: radius,
            fill_color: Color::black(),
            border_color: Color::transparent(),
            border_width: Scalar::zero(),
            transformations: Transformations2D::default(),
        }
    }

    /// An ellipse around `center_position`: filled black, with a transparent
    /// border of width 0.
    pub fn ellipse(center_position: Position2D, size: Size2D) -> (r: Geometry2D)
        ensures
            r@ == (Geometry2DView::Ellipse {
                center_position: center_position,
                size: size,
                fill_color: Color { red: 0, green: 0, blue: 0, alpha: 255 },
                border_color: Color { red: 0, green: 0, blue: 0, alpha: 0 },
                border_width: Scalar { bits: ZERO_BITS },
                transformations: Seq::empty(),
            }),
    {
        Geometry2D::Ellipse {
            center_position: center_position,
            size: size,
            fill_color: Color::black(),
            border_color: Color::transparent(),
            border_width: Scalar::zero(),
            transformations: Transformations2D::default(),
        }
    }

    /// An image around `center_position` that shows the whole texture,
    /// untinted.
    pub fn image(
        center_position: Position2D,
        size: Size2D,
        texture_source: TextureSource,
    ) -> (r: Geometry2D)
        ensures
            r@ == (Geometry2DView::Image {
                center_position: center_position,
                size: size,
                texture_source: texture_source@,
                source_rectangle: None,
                fill_color: None,
                transformations: Seq::empty(),
            }),
    {
        Geometry2D::Image {
            center_position: center_position,
            size: size,
            texture_source: texture_source,
            source_rectangle: None,
            fill_color: None,
            transformations: Transformations2D::default(),
        }
    }

    /// The group of the given geometries.
    pub fn group(geometries: Vec<Geometry2D>) -> (r: Geometry2D)
        ensures
            r == Geometry2D::Group(geometries),
            r@ == Geometry2DView::Group(models_of(geometries@)),
    {
        proof {
            Geometry2D::group_view(geometries);
        }
        Geometry2D::Group(geometries)
    }
}

} // verus!
