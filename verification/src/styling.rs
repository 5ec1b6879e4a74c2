//! Changing the style of a geometry.
//!
//! Each operation consumes a geometry and returns it with one attribute set. A
//! shape that has no such attribute comes back as it was; a group hands the
//! operation on to each of its members.

use vstd::prelude::*;
use crate::bounding_box::FootprintView;
use crate::color::Color;
use crate::geometry::{Geometry2D, Geometry2DView};
use crate::scalar::Scalar;
use crate::style::{CornerShape, LineShape};

verus! {

impl Geometry2DView {
    /// The geometry with the colour of the line, or of the border, set to
    /// `new_line_or_border_color` wherever there is one. A point and an image
    /// have neither line nor border.
    pub open spec fn line_or_border_color(self, new_line_or_border_color: Color) -> Geometry2DView
        decreases self,
    {
        match self {
            Geometry2DView::Line {
                points,
                line_width,
                line_shape,
                transformations,
                ..
            } => Geometry2DView::Line {
                points,
                line_color: new_line_or_border_color,
                line_width,
                line_shape,
                transformations,
            },
            Geometry2DView::Polyline {
                points,
                line_width,
                line_shape,
                transformations,
                ..
            } => Geometry2DView::Polyline {
                points,
                line_color: new_line_or_border_color,
                line_width,
                line_shape,
                transformations,
            },
            Geometry2DView::Triangle {
                points,
                fill_color,
                border_width,
                transformations,
                ..
            } => Geometry2DView::Triangle {
                points,
                fill_color,
                border_color: new_line_or_border_color,
                border_width,
                transformations,
            },
            Geometry2DView::Square {
                center_position,
                edge_length,
                fill_color,
                border_width,
                corner_shape,
                transformations,
                ..
            } => Geometry2DView::Square {
                center_position,
                edge_length,
                fill_color,
                border_color: new_line_or_border_color,
                border_width,
                corner_shape,
                transformations,
            },
            Geometry2DView::Rectangle {
                center_position,
                size,
                fill_color,
                border_width,
                corner_shape,
                transformations,
                ..
            } => Geometry2DView::Rectangle {
                center_position,
                size,
                fill_color,
                border_color: new_line_or_border_color,
                border_width,
                corner_shape,
                transformations,
            },
            Geometry2DView::Polygon {
                points,
                fill_color,
                border_width,
                transformations,
                ..
            } => Geometry2DView::Polygon {
                points,
                fill_color,
                border_color: new_line_or_border_color,
                border_width,
                transformations,
            },
            Geometry2DView::Circle {
                center_position,
                radius,
                fill_color,
                border_width,
                transformations,
                ..
            } => Geometry2DView::Circle {
                center_position,
                radius,
                fill_color,
                border_color: new_line_or_border_color,
                border_width,
                transformations,
            },
            Geometry2DView::Ellipse {
                center_position,
                size,
                fill_color,
                border_width,
                transformations,
                ..
            } => Geometry2DView::Ellipse {
                center_position,
                size,
                fill_color,
                border_color: new_line_or_border_color,
                border_width,
                transformations,
            },
            Geometry2DView::Group(geometries) => Geometry2DView::Group(
                geometries.map_values(
                    |g: Geometry2DView|
                        // true of every item of the list: it shows that the definition ends
                        if decreases_to!(self => g) {
                            g.line_or_border_color(new_line_or_border_color)
                        } else {
                            g
                        },
                ),
            ),
            _ => self,
        }
    }

    /// On a group, the operation reaches each member.
    pub proof fn line_or_border_color_in_group(geometries: Seq<Geometry2DView>, value: Color)
        ensures
            Geometry2DView::Group(geometries).line_or_border_color(value) == Geometry2DView::Group(
                geometries.map_values(|g: Geometry2DView| g.line_or_border_color(value)),
            ),
    {
        let whole = Geometry2DView::Group(geometries);
        let reached = geometries.map_values(|g: Geometry2DView| g.line_or_border_color(value));
        assert(whole.line_or_border_color(value)->Group_0 =~= reached);
    }

    /// The geometry with the width of the line, or of the border, set to
    /// `new_line_or_border_width` wherever there is one. A point and an image
    /// have neither line nor border.
    pub open spec fn line_or_border_width(self, new_line_or_border_width: Scalar) -> Geometry2DView
        decreases self,
    {
        match self {
            Geometry2DView::Line {
                points,
                line_color,
                line_shape,
                transformations,
                ..
            } => Geometry2DView::Line {
                points,
                line_color,
                line_width: new_line_or_border_width,
                line_shape,
                transformations,
            },
            Geometry2DView::Polyline {
                points,
                line_color,
                line_shape,
                transformations,
                ..
            } => Geometry2DView::Polyline {
                points,
                line_color,
                line_width: new_line_or_border_width,
                line_shape,
                transformations,
            },
            Geometry2DView::Triangle {
                points,
                fill_color,
                border_color,
                transformations,
                ..
            } => Geometry2DView::Triangle {
                points,
                fill_color,
                border_color,
                border_width: new_line_or_border_width,
                transformations,
            },
            Geometry2DView::Square {
                center_position,
                edge_length,
                fill_color,
                border_color,
                corner_shape,
                transformations,
                ..
            } => Geometry2DView::Square {
                center_position,
                edge_length,
                fill_color,
                border_color,
                border_width: new_line_or_border_width,
                corner_shape,
                transformations,
            },
            Geometry2DView::Rectangle {
                center_position,
                size,
                fill_color,
                border_color,
                corner_shape,
                transformations,
                ..
            } => Geometry2DView::Rectangle {
                center_position,
                size,
                fill_color,
                border_color,
                border_width: new_line_or_border_width,
                corner_shape,
                transformations,
            },
            Geometry2DView::Polygon {
                points,
                fill_color,
                border_color,
                transformations,
                ..
            } => Geometry2DView::Polygon {
                points,
                fill_color,
                border_color,
                border_width: new_line_or_border_width,
                transformations,
            },
            Geometry2DView::Circle {
                center_position,
                radius,
                fill_color,
                border_color,
                transformations,
                ..
            } => Geometry2DView::Circle {
                center_position,
                radius,
                fill_color,
                border_color,
                border_width: new_line_or_border_width,
                transformations,
            },
            Geometry2DView::Ellipse {
                center_position,
                size,
                fill_color,
                border_color,
                transformations,
                ..
            } => Geometry2DView::Ellipse {
                center_position,
                size,
                fill_color,
                border_color,
                border_width: new_line_or_border_width,
                transformations,
            },
            Geometry2DView::Group(geometries) => Geometry2DView::Group(
                geometries.map_values(
                    |g: Geometry2DView|
                        // true of every item of the list: it shows that the definition ends
                        if decreases_to!(self => g) {
                            g.line_or_border_width(new_line_or_border_width)
                        } else {
                            g
                        },
                ),
            ),
            _ => self,
        }
    }

    /// On a group, the operation reaches each member.
    pub proof fn line_or_border_width_in_group(geometries: Seq<Geometry2DView>, value: Scalar)
        ensures
            Geometry2DView::Group(geometries).line_or_border_width(value) == Geometry2DView::Group(
                geometries.map_values(|g: Geometry2DView| g.line_or_border_width(value)),
            ),
    {
        let whole = Geometry2DView::Group(geometries);
        let reached = geometries.map_values(|g: Geometry2DView| g.line_or_border_width(value));
        assert(whole.line_or_border_width(value)->Group_0 =~= reached);
    }

    /// The geometry with the shape of the line ends set to `new_line_shape`
    /// wherever there is one. Only a line and a polyline have line ends.
    pub open spec fn line_shape(self, new_line_shape: LineShape) -> Geometry2DView
        decreases self,
    {
        match self {
            Geometry2DView::Line {
                points,
                line_color,
                line_width,
                transformations,
                ..
            } => Geometry2DView::Line {
                points,
                line_color,
                line_width,
                line_shape: new_line_shape,
                transformations,
            },
            Geometry2DView::Polyline {
                points,
                line_color,
                line_width,
                transformations,
                ..
            } => Geometry2DView::Polyline {
                points,
                line_color,
                line_width,
                line_shape: new_line_shape,
                transformations,
            },
            Geometry2DView::Group(geometries) => Geometry2DView::Group(
                geometries.map_values(
                    |g: Geometry2DView|
                        // true of every item of the list: it shows that the definition ends
                        if decreases_to!(self => g) {
                            g.line_shape(new_line_shape)
                        } else {
                            g
                        },
                ),
            ),
            _ => self,
        }
    }

    /// On a group, the operation reaches each member.
    pub proof fn line_shape_in_group(geometries: Seq<Geometry2DView>, value: LineShape)
        ensures
            Geometry2DView::Group(geometries).line_shape(value) == Geometry2DView::Group(
                geometries.map_values(|g: Geometry2DView| g.line_shape(value)),
            ),
    {
        let whole = Geometry2DView::Group(geometries);
        let reached = geometries.map_values(|g: Geometry2DView| g.line_shape(value));
        assert(whole.line_shape(value)->Group_0 =~= reached);
    }

    /// The geometry with the shape of the corners set to `new_corner_shape`
    /// wherever there is one. Only a square and a rectangle have corners to
    /// shape.
    pub open spec fn corner_shape(self, new_corner_shape: CornerShape) -> Geometry2DView
        decreases self,
    {
        match self {
            Geometry2DView::Square {
                center_position,
                edge_length,
                fill_color,
                border_color,
                border_width,
                transformations,
                ..
            } => Geometry2DView::Square {
                center_position,
                edge_length,
                fill_color,
                border_color,
                border_width,
                corner_shape: new_corner_shape,
                transformations,
            },
            Geometry2DView::Rectangle {
                center_position,
                size,
                fill_color,
                border_color,
                border_width,
                transformations,
                ..
            } => Geometry2DView::Rectangle {
                center_position,
                size,
                fill_color,
                border_color,
                border_width,
                corner_shape: new_corner_shape,
                transformations,
            },
            Geometry2DView::Group(geometries) => Geometry2DView::Group(
                geometries.map_values(
                    |g: Geometry2DView|
                        // true of every item of the list: it shows that the definition ends
                        if decreases_to!(self => g) {
                            g.corner_shape(new_corner_shape)
                        } else {
                            g
                        },
                ),
            ),
            _ => self,
        }
    }

    /// On a group, the operation reaches each member.
    pub proof fn corner_shape_in_group(geometries: Seq<Geometry2DView>, value: CornerShape)
        ensures
            Geometry2DView::Group(geometries).corner_shape(value) == Geometry2DView::Group(
                geometries.map_values(|g: Geometry2DView| g.corner_shape(value)),
            ),
    {
        let whole = Geometry2DView::Group(geometries);
        let reached = geometries.map_values(|g: Geometry2DView| g.corner_shape(value));
        assert(whole.corner_shape(value)->Group_0 =~= reached);
    }

    /// The geometry with the fill colour set to `new_fill_color` wherever there
    /// is one. A line and a polyline have no fill; a point is filled with its
    /// colour, an image tinted.
    pub open spec fn fill_color(self, new_fill_color: Color) -> Geometry2DView
        decreases self,
    {
        match self {
            Geometry2DView::Point { position, transformations, .. } => Geometry2DView::Point {
                position,
                color: new_fill_color,
                transformations,
            },
            Geometry2DView::Triangle {
                points,
                border_color,
                border_width,
                transformations,
                ..
            } => Geometry2DView::Triangle {
                points,
                fill_color: new_fill_color,
                border_color,
                border_width,
                transformations,
            },
            Geometry2DView::Square {
                center_position,
                edge_length,
                border_color,
                border_width,
                corner_shape,
                transformations,
                ..
            } => Geometry2DView::Square {
                center_position,
                edge_length,
                fill_color: new_fill_color,
                border_color,
                border_width,
                corner_shape,
                transformations,
            },
            Geometry2DView::Rectangle {
                center_position,
                size,
                border_color,
                border_width,
                corner_shape,
                transformations,
                ..
            } => Geometry2DView::Rectangle {
                center_position,
                size,
                fill_color: new_fill_color,
                border_color,
                border_width,
                corner_shape,
                transformations,
            },
            Geometry2DView::Polygon {
                points,
                border_color,
                border_width,
                transformations,
                ..
            } => Geometry2DView::Polygon {
                points,
                fill_color: new_fill_color,
                border_color,
                border_width,
                transformations,
            },
            Geometry2DView::Circle {
                center_position,
                radius,
                border_color,
                border_width,
                transformations,
                ..
            } => Geometry2DView::Circle {
                center_position,
                radius,
                fill_color: new_fill_color,
                border_color,
                border_width,
                transformations,
            },
            Geometry2DView::Ellipse {
                center_position,
                size,
                border_color,
                border_width,
                transformations,
                ..
            } => Geometry2DView::Ellipse {
                center_position,
                size,
                fill_color: new_fill_color,
                border_color,
                border_width,
                transformations,
            },
            Geometry2DView::Image {
                center_position,
                size,
                texture_source,
                source_rectangle,
                transformations,
                ..
            } => Geometry2DView::Image {
                center_position,
                size,
                texture_source,
                source_rectangle,
                fill_color: Some(new_fill_color),
                transformations,
            },
            Geometry2DView::Group(geometries) => Geometry2DView::Group(
                geometries.map_values(
                    |g: Geometry2DView|
                        // true of every item of the list: it shows that the definition ends
                        if decreases_to!(self => g) {
                            g.fill_color(new_fill_color)
                        } else {
                            g
                        },
                ),
            ),
            _ => self,
        }
    }

    /// On a group, the operation reaches each member.
    pub proof fn fill_color_in_group(geometries: Seq<Geometry2DView>, value: Color)
        ensures
            Geometry2DView::Group(geometries).fill_color(value) == Geometry2DView::Group(
                geometries.map_values(|g: Geometry2DView| g.fill_color(value)),
            ),
    {
        let whole = Geometry2DView::Group(geometries);
        let reached = geometries.map_values(|g: Geometry2DView| g.fill_color(value));
        assert(whole.fill_color(value)->Group_0 =~= reached);
    }

    /// Setting twice is setting once: the second value stays.
    pub proof fn line_or_border_color_twice(self, first: Color, second: Color)
        ensures
            self.line_or_border_color(first).line_or_border_color(second)
                == self.line_or_border_color(second),
        decreases self,
    {
        if let Geometry2DView::Group(geometries) = self {
            Geometry2DView::line_or_border_color_in_group(geometries, first);
            Geometry2DView::line_or_border_color_in_group(geometries, second);
            let once = geometries.map_values(|g: Geometry2DView| g.line_or_border_color(first));
            Geometry2DView::line_or_border_color_in_group(once, second);
            let twice = once.map_values(|g: Geometry2DView| g.line_or_border_color(second));
            let directly = geometries.map_values(
                |g: Geometry2DView| g.line_or_border_color(second),
            );
            assert forall|i: int| 0 <= i < geometries.len() implies #[trigger] twice[i]
                == directly[i] by {
                geometries[i].line_or_border_color_twice(first, second);
            }
            assert(twice =~= directly);
        }
    }

    /// The style of a geometry is nothing to its bounds: a footprint that fits
    /// the geometry fits it as well when the attribute is set.
    pub proof fn line_or_border_color_keeps_form(self, value: Color, footprint: FootprintView)
        requires
            footprint.fits(self),
        ensures
            footprint.fits(self.line_or_border_color(value)),
        decreases self,
    {
        if let Geometry2DView::Group(geometries) = self {
            Geometry2DView::line_or_border_color_in_group(geometries, value);
            let members = footprint->Group_0;
            assert forall|i: int| 0 <= i < members.len() implies (#[trigger] members[i]).fits(
                geometries[i].line_or_border_color(value),
            ) by {
                geometries[i].line_or_border_color_keeps_form(value, members[i]);
            }
        }
    }

    /// Setting twice is setting once: the second value stays.
    pub proof fn line_or_border_width_twice(self, first: Scalar, second: Scalar)
        ensures
            self.line_or_border_width(first).line_or_border_width(second)
                == self.line_or_border_width(second),
        decreases self,
    {
        if let Geometry2DView::Group(geometries) = self {
            Geometry2DView::line_or_border_width_in_group(geometries, first);
            Geometry2DView::line_or_border_width_in_group(geometries, second);
            let once = geometries.map_values(|g: Geometry2DView| g.line_or_border_width(first));
            Geometry2DView::line_or_border_width_in_group(once, second);
            let twice = once.map_values(|g: Geometry2DView| g.line_or_border_width(second));
            let directly = geometries.map_values(
                |g: Geometry2DView| g.line_or_border_width(second),
            );
            assert forall|i: int| 0 <= i < geometries.len() implies #[trigger] twice[i]
                == directly[i] by {
                geometries[i].line_or_border_width_twice(first, second);
            }
            assert(twice =~= directly);
        }
    }

    /// The style of a geometry is nothing to its bounds: a footprint that fits
    /// the geometry fits it as well when the attribute is set.
    pub proof fn line_or_border_width_keeps_form(self, value: Scalar, footprint: FootprintView)
        requires
            footprint.fits(self),
        ensures
            footprint.fits(self.line_or_border_width(value)),
        decreases self,
    {
        if let Geometry2DView::Group(geometries) = self {
            Geometry2DView::line_or_border_width_in_group(geometries, value);
            let members = footprint->Group_0;
            assert forall|i: int| 0 <= i < members.len() implies (#[trigger] members[i]).fits(
                geometries[i].line_or_border_width(value),
            ) by {
                geometries[i].line_or_border_width_keeps_form(value, members[i]);
            }
        }
    }

    /// Setting twice is setting once: the second value stays.
    pub proof fn line_shape_twice(self, first: LineShape, second: LineShape)
        ensures
            self.line_shape(first).line_shape(second)
                == self.line_shape(second),
        decreases self,
    {
        if let Geometry2DView::Group(geometries) = self {
            Geometry2DView::line_shape_in_group(geometries, first);
            Geometry2DView::line_shape_in_group(geometries, second);
            let once = geometries.map_values(|g: Geometry2DView| g.line_shape(first));
            Geometry2DView::line_shape_in_group(once, second);
            let twice = once.map_values(|g: Geometry2DView| g.line_shape(second));
            let directly = geometries.map_values(
                |g: Geometry2DView| g.line_shape(second),
            );
            assert forall|i: int| 0 <= i < geometries.len() implies #[trigger] twice[i]
                == directly[i] by {
                geometries[i].line_shape_twice(first, second);
            }
            assert(twice =~= directly);
        }
    }

    /// The style of a geometry is nothing to its bounds: a footprint that fits
    /// the geometry fits it as well when the attribute is set.
    pub proof fn line_shape_keeps_form(self, value: LineShape, footprint: FootprintView)
        requires
            footprint.fits(self),
        ensures
            footprint.fits(self.line_shape(value)),
        decreases self,
    {
        if let Geometry2DView::Group(geometries) = self {
            Geometry2DView::line_shape_in_group(geometries, value);
            let members = footprint->Group_0;
            assert forall|i: int| 0 <= i < members.len() implies (#[trigger] members[i]).fits(
                geometries[i].line_shape(value),
            ) by {
                geometries[i].line_shape_keeps_form(value, members[i]);
            }
        }
    }

    /// Setting twice is setting once: the second value stays.
    pub proof fn corner_shape_twice(self, first: CornerShape, second: CornerShape)
        ensures
            self.corner_shape(first).corner_shape(second)
                == self.corner_shape(second),
        decreases self,
    {
        if let Geometry2DView::Group(geometries) = self {
            Geometry2DView::corner_shape_in_group(geometries, first);
            Geometry2DView::corner_shape_in_group(geometries, second);
            let once = geometries.map_values(|g: Geometry2DView| g.corner_shape(first));
            Geometry2DView::corner_shape_in_group(once, second);
            let twice = once.map_values(|g: Geometry2DView| g.corner_shape(second));
            let directly = geometries.map_values(
                |g: Geometry2DView| g.corner_shape(second),
            );
            assert forall|i: int| 0 <= i < geometries.len() implies #[trigger] twice[i]
                == directly[i] by {
                geometries[i].corner_shape_twice(first, second);
            }
            assert(twice =~= directly);
        }
    }

    /// The style of a geometry is nothing to its bounds: a footprint that fits
    /// the geometry fits it as well when the attribute is set.
    pub proof fn corner_shape_keeps_form(self, value: CornerShape, footprint: FootprintView)
        requires
            footprint.fits(self),
        ensures
            footprint.fits(self.corner_shape(value)),
        decreases self,
    {
        if let Geometry2DView::Group(geometries) = self {
            Geometry2DView::corner_shape_in_group(geometries, value);
            let members = footprint->Group_0;
            assert forall|i: int| 0 <= i < members.len() implies (#[trigger] members[i]).fits(
                geometries[i].corner_shape(value),
            ) by {
                geometries[i].corner_shape_keeps_form(value, members[i]);
            }
        }
    }

    /// Setting twice is setting once: the second value stays.
    pub proof fn fill_color_twice(self, first: Color, second: Color)
        ensures
            self.fill_color(first).fill_color(second)
                == self.fill_color(second),
        decreases self,
    {
        if let Geometry2DView::Group(geometries) = self {
            Geometry2DView::fill_color_in_group(geometries, first);
            Geometry2DView::fill_color_in_group(geometries, second);
            let once = geometries.map_values(|g: Geometry2DView| g.fill_color(first));
            Geometry2DView::fill_color_in_group(once, second);
            let twice = once.map_values(|g: Geometry2DView| g.fill_color(second));
            let directly = geometries.map_values(
                |g: Geometry2DView| g.fill_color(second),
            );
            assert forall|i: int| 0 <= i < geometries.len() implies #[trigger] twice[i]
                == directly[i] by {
                geometries[i].fill_color_twice(first, second);
            }
            assert(twice =~= directly);
        }
    }

    /// The style of a geometry is nothing to its bounds: a footprint that fits
    /// the geometry fits it as well when the attribute is set.
    pub proof fn fill_color_keeps_form(self, value: Color, footprint: FootprintView)
        requires
            footprint.fits(self),
        ensures
            footprint.fits(self.fill_color(value)),
        decreases self,
    {
        if let Geometry2DView::Group(geometries) = self {
            Geometry2DView::fill_color_in_group(geometries, value);
            let members = footprint->Group_0;
            assert forall|i: int| 0 <= i < members.len() implies (#[trigger] members[i]).fits(
                geometries[i].fill_color(value),
            ) by {
                geometries[i].fill_color_keeps_form(value, members[i]);
            }
        }
    }

}

impl Geometry2D {
    /// Sets the colour of the line, or of the border, to
    /// `new_line_or_border_color`. A point and an image have neither line nor
    /// border: they come back unchanged. A group hands the operation on to each
    /// member.
    pub fn line_or_border_color(self, new_line_or_border_color: Color) -> (r: Geometry2D)
        ensures
            r@ == self@.line_or_border_color(new_line_or_border_color),
            self is Point || self is Image ==> r == self,
        decreases self,
    {
        let ghost this = self;
        match self {
            Geometry2D::Line {
                points,
                line_width,
                line_shape,
                transformations,
                ..
            } => Geometry2D::Line {
                points,
                line_color: new_line_or_border_color,
                line_width,
                line_shape,
                transformations,
            },
            Geometry2D::Polyline {
                points,
                line_width,
                line_shape,
                transformations,
                ..
            } => Geometry2D::Polyline {
                points,
                line_color: new_line_or_border_color,
                line_width,
                line_shape,
                transformations,
            },
            Geometry2D::Triangle {
                points,
                fill_color,
                border_width,
                transformations,
                ..
            } => Geometry2D::Triangle {
                points,
                fill_color,
                border_color: new_line_or_border_color,
                border_width,
                transformations,
            },
            Geometry2D::Square {
                center_position,
                edge_length,
                fill_color,
                border_width,
                corner_shape,
                transformations,
                ..
            } => Geometry2D::Square {
                center_position,
                edge_length,
                fill_color,
                border_color: new_line_or_border_color,
                border_width,
                corner_shape,
                transformations,
            },
            Geometry2D::Rectangle {
                center_position,
                size,
                fill_color,
                border_width,
                corner_shape,
                transformations,
                ..
            } => Geometry2D::Rectangle {
                center_position,
                size,
                fill_color,
                border_color: new_line_or_border_color,
                border_width,
                corner_shape,
                transformations,
            },
            Geometry2D::Polygon {
                points,
                fill_color,
                border_width,
                transformations,
                ..
            } => Geometry2D::Polygon {
                points,
                fill_color,
                border_color: new_line_or_border_color,
                border_width,
                transformations,
            },
            Geometry2D::Circle {
                center_position,
                radius,
                fill_color,
                border_width,
                transformations,
                ..
            } => Geometry2D::Circle {
                center_position,
                radius,
                fill_color,
                border_color: new_line_or_border_color,
                border_width,
                transformations,
            },
            Geometry2D::Ellipse {
                center_position,
                size,
                fill_color,
                border_width,
                transformations,
                ..
            } => Geometry2D::Ellipse {
                center_position,
                size,
                fill_color,
                border_color: new_line_or_border_color,
                border_width,
                transformations,
            },
            Geometry2D::Group(geometries) => {
                let ghost members = geometries;
                let mut changed: Vec<Geometry2D> = Vec::new();
                for geometry in it: geometries
                    invariant
                        it.seq() == members@,
                        this == self,
                        this == Geometry2D::Group(members),
                        changed@.len() == it.index(),
                        forall|i: int|
                            0 <= i < changed@.len() ==> (#[trigger] changed@[i])@
                                == members@[i]@.line_or_border_color(new_line_or_border_color),
                {
                    proof {
                        assert(decreases_to!(this => this->Group_0));
                        vstd::std_specs::vec::axiom_vec_index_decreases(
                            members,
                            it.index() as int,
                        );
                    }
                    changed.push(geometry.line_or_border_color(new_line_or_border_color));
                }
                let r = Geometry2D::Group(changed);
                let ghost wanted = this@.line_or_border_color(new_line_or_border_color);
                assert(r@->Group_0 =~= wanted->Group_0);
                r
            },
            unchanged => unchanged,
        }
    }

    /// Sets the width of the line, or of the border, to
    /// `new_line_or_border_width`. A point and an image have neither line nor
    /// border: they come back unchanged. A group hands the operation on to each
    /// member.
    pub fn line_or_border_width(self, new_line_or_border_width: Scalar) -> (r: Geometry2D)
        ensures
            r@ == self@.line_or_border_width(new_line_or_border_width),
            self is Point || self is Image ==> r == self,
        decreases self,
    {
        let ghost this = self;
        match self {
            Geometry2D::Line {
                points,
                line_color,
                line_shape,
                transformations,
                ..
            } => Geometry2D::Line {
                points,
                line_color,
                line_width: new_line_or_border_width,
                line_shape,
                transformations,
            },
            Geometry2D::Polyline {
                points,
                line_color,
                line_shape,
                transformations,
                ..
            } => Geometry2D::Polyline {
                points,
                line_color,
                line_width: new_line_or_border_width,
                line_shape,
                transformations,
            },
            Geometry2D::Triangle {
                points,
                fill_color,
                border_color,
                transformations,
                ..
            } => Geometry2D::Triangle {
                points,
                fill_color,
                border_color,
                border_width: new_line_or_border_width,
                transformations,
            },
            Geometry2D::Square {
                center_position,
                edge_length,
                fill_color,
                border_color,
                corner_shape,
                transformations,
                ..
            } => Geometry2D::Square {
                center_position,
                edge_length,
                fill_color,
                border_color,
                border_width: new_line_or_border_width,
                corner_shape,
                transformations,
            },
            Geometry2D::Rectangle {
                center_position,
                size,
                fill_color,
                border_color,
                corner_shape,
                transformations,
                ..
            } => Geometry2D::Rectangle {
                center_position,
                size,
                fill_color,
                border_color,
                border_width: new_line_or_border_width,
                corner_shape,
                transformations,
            },
            Geometry2D::Polygon {
                points,
                fill_color,
                border_color,
                transformations,
                ..
            } => Geometry2D::Polygon {
                points,
                fill_color,
                border_color,
                border_width: new_line_or_border_width,
                transformations,
            },
            Geometry2D::Circle {
                center_position,
                radius,
                fill_color,
                border_color,
                transformations,
                ..
            } => Geometry2D::Circle {
                center_position,
                radius,
                fill_color,
                border_color,
                border_width: new_line_or_border_width,
                transformations,
            },
            Geometry2D::Ellipse {
                center_position,
                size,
                fill_color,
                border_color,
                transformations,
                ..
            } => Geometry2D::Ellipse {
                center_position,
                size,
                fill_color,
                border_color,
                border_width: new_line_or_border_width,
                transformations,
            },
            Geometry2D::Group(geometries) => {
                let ghost members = geometries;
                let mut changed: Vec<Geometry2D> = Vec::new();
                for geometry in it: geometries
                    invariant
                        it.seq() == members@,
                        this == self,
                        this == Geometry2D::Group(members),
                        changed@.len() == it.index(),
                        forall|i: int|
                            0 <= i < changed@.len() ==> (#[trigger] changed@[i])@
                                == members@[i]@.line_or_border_width(new_line_or_border_width),
                {
                    proof {
                        assert(decreases_to!(this => this->Group_0));
                        vstd::std_specs::vec::axiom_vec_index_decreases(
                            members,
                            it.index() as int,
                        );
                    }
                    changed.push(geometry.line_or_border_width(new_line_or_border_width));
                }
                let r = Geometry2D::Group(changed);
                let ghost wanted = this@.line_or_border_width(new_line_or_border_width);
                assert(r@->Group_0 =~= wanted->Group_0);
                r
            },
            unchanged => unchanged,
        }
    }

    /// Sets the shape of the line ends to `new_line_shape`. Only a line and a
    /// polyline have line ends: they come back unchanged. A group hands the
    /// operation on to each member.
    pub fn line_shape(self, new_line_shape: LineShape) -> (r: Geometry2D)
        ensures
            r@ == self@.line_shape(new_line_shape),
            (self is Point
                || self is Triangle
                || self is Square
                || self is Rectangle
                || self is Polygon
                || self is Circle
                || self is Ellipse
                || self is Image) ==> r == self,
        decreases self,
    {
        let ghost this = self;
        match self {
            Geometry2D::Line {
                points,
                line_color,
                line_width,
                transformations,
                ..
            } => Geometry2D::Line {
                points,
                line_color,
                line_width,
                line_shape: new_line_shape,
                transformations,
            },
            Geometry2D::Polyline {
                points,
                line_color,
                line_width,
                transformations,
                ..
            } => Geometry2D::Polyline {
                points,
                line_color,
                line_width,
                line_shape: new_line_shape,
                transformations,
            },
            Geometry2D::Group(geometries) => {
                let ghost members = geometries;
                let mut changed: Vec<Geometry2D> = Vec::new();
                for geometry in it: geometries
                    invariant
                        it.seq() == members@,
                        this == self,
                        this == Geometry2D::Group(members),
                        changed@.len() == it.index(),
                        forall|i: int|
                            0 <= i < changed@.len() ==> (#[trigger] changed@[i])@
                                == members@[i]@.line_shape(new_line_shape),
                {
                    proof {
                        assert(decreases_to!(this => this->Group_0));
                        vstd::std_specs::vec::axiom_vec_index_decreases(
                            members,
                            it.index() as int,
                        );
                    }
                    changed.push(geometry.line_shape(new_line_shape));
                }
                let r = Geometry2D::Group(changed);
                let ghost wanted = this@.line_shape(new_line_shape);
                assert(r@->Group_0 =~= wanted->Group_0);
                r
            },
            unchanged => unchanged,
        }
    }

    /// Sets the shape of the corners to `new_corner_shape`. Only a square and a
    /// rectangle have corners to shape: they come back unchanged. A group hands
    /// the operation on to each member.
    pub fn corner_shape(self, new_corner_shape: CornerShape) -> (r: Geometry2D)
        ensures
            r@ == self@.corner_shape(new_corner_shape),
            (self is Point
                || self is Line
                || self is Polyline
                || self is Triangle
                || self is Polygon
                || self is Circle
                || self is Ellipse
                || self is Image) ==> r == self,
        decreases self,
    {
        let ghost this = self;
        match self {
            Geometry2D::Square {
                center_position,
                edge_length,
                fill_color,
                border_color,
                border_width,
                transformations,
                ..
            } => Geometry2D::Square {
                center_position,
                edge_length,
                fill_color,
                border_color,
                border_width,
                corner_shape: new_corner_shape,
                transformations,
            },
            Geometry2D::Rectangle {
                center_position,
                size,
                fill_color,
                border_color,
                border_width,
                transformations,
                ..
            } => Geometry2D::Rectangle {
                center_position,
                size,
                fill_color,
                border_color,
                border_width,
                corner_shape: new_corner_shape,
                transformations,
            },
            Geometry2D::Group(geometries) => {
                let ghost members = geometries;
                let mut changed: Vec<Geometry2D> = Vec::new();
                for geometry in it: geometries
                    invariant
                        it.seq() == members@,
                        this == self,
                        this == Geometry2D::Group(members),
                        changed@.len() == it.index(),
                        forall|i: int|
                            0 <= i < changed@.len() ==> (#[trigger] changed@[i])@
                                == members@[i]@.corner_shape(new_corner_shape),
                {
                    proof {
                        assert(decreases_to!(this => this->Group_0));
                        vstd::std_specs::vec::axiom_vec_index_decreases(
                            members,
                            it.index() as int,
                        );
                    }
                    changed.push(geometry.corner_shape(new_corner_shape));
                }
                let r = Geometry2D::Group(changed);
                let ghost wanted = this@.corner_shape(new_corner_shape);
                assert(r@->Group_0 =~= wanted->Group_0);
                r
            },
            unchanged => unchanged,
        }
    }

    /// Sets the fill colour to `new_fill_color`. A line and a polyline have no
    /// fill; a point is filled with its colour, an image tinted: they come back
    /// unchanged. A group hands the operation on to each member.
    pub fn fill_color(self, new_fill_color: Color) -> (r: Geometry2D)
        ensures
            r@ == self@.fill_color(new_fill_color),
            self is Line || self is Polyline ==> r == self,
        decreases self,
    {
        let ghost this = self;
        match self {
            Geometry2D::Point { position, transformations, .. } => Geometry2D::Point {
                position,
                color: new_fill_color,
                transformations,
            },
            Geometry2D::Triangle {
                points,
                border_color,
                border_width,
                transformations,
                ..
            } => Geometry2D::Triangle {
                points,
                fill_color: new_fill_color,
                border_color,
                border_width,
                transformations,
            },
            Geometry2D::Square {
                center_position,
                edge_length,
                border_color,
                border_width,
                corner_shape,
                transformations,
                ..
            } => Geometry2D::Square {
                center_position,
                edge_length,
                fill_color: new_fill_color,
                border_color,
                border_width,
                corner_shape,
                transformations,
            },
            Geometry2D::Rectangle {
                center_position,
                size,
                border_color,
                border_width,
                corner_shape,
                transformations,
                ..
            } => Geometry2D::Rectangle {
                center_position,
                size,
                fill_color: new_fill_color,
                border_color,
                border_width,
                corner_shape,
                transformations,
            },
            Geometry2D::Polygon {
                points,
                border_color,
                border_width,
                transformations,
                ..
            } => Geometry2D::Polygon {
                points,
                fill_color: new_fill_color,
                border_color,
                border_width,
                transformations,
            },
            Geometry2D::Circle {
                center_position,
                radius,
                border_color,
                border_width,
                transformations,
                ..
            } => Geometry2D::Circle {
                center_position,
                radius,
                fill_color: new_fill_color,
                border_color,
                border_width,
                transformations,
            },
            Geometry2D::Ellipse {
                center_position,
                size,
                border_color,
                border_width,
                transformations,
                ..
            } => Geometry2D::Ellipse {
                center_position,
                size,
                fill_color: new_fill_color,
                border_color,
                border_width,
                transformations,
            },
            Geometry2D::Image {
                center_position,
                size,
                texture_source,
                source_rectangle,
                transformations,
                ..
            } => Geometry2D::Image {
                center_position,
                size,
                texture_source,
                source_rectangle,
                fill_color: Some(new_fill_color),
                transformations,
            },
            Geometry2D::Group(geometries) => {
                let ghost members = geometries;
                let mut changed: Vec<Geometry2D> = Vec::new();
                for geometry in it: geometries
                    invariant
                        it.seq() == members@,
                        this == self,
                        this == Geometry2D::Group(members),
                        changed@.len() == it.index(),
                        forall|i: int|
                            0 <= i < changed@.len() ==> (#[trigger] changed@[i])@
                                == members@[i]@.fill_color(new_fill_color),
                {
                    proof {
                        assert(decreases_to!(this => this->Group_0));
                        vstd::std_specs::vec::axiom_vec_index_decreases(
                            members,
                            it.index() as int,
                        );
                    }
                    changed.push(geometry.fill_color(new_fill_color));
                }
                let r = Geometry2D::Group(changed);
                let ghost wanted = this@.fill_color(new_fill_color);
                assert(r@->Group_0 =~= wanted->Group_0);
                r
            },
            unchanged => unchanged,
        }
    }

}

} // verus!
