//! Moving a geometry by adding operations to its pipelines.
//!
//! A group has no pipeline of its own: an operation added to a group is added
//! to the pipeline of every shape in it.

use vstd::prelude::*;
use crate::bounding_box::FootprintView;
use crate::geometry::{Geometry2D, Geometry2DView};
use crate::math::Vector2D;
use crate::transformation::{Transformation2D, Transformation2DView};

verus! {

impl Geometry2DView {
    /// The geometry with `transformation` added at the end of the pipeline of
    /// every shape in it.
    pub open spec fn append_transformation(
        self,
        transformation: Transformation2DView,
    ) -> Geometry2DView
        decreases self,
    {
        match self {
            Geometry2DView::Point { position, color, transformations } => Geometry2DView::Point {
                position,
                color,
                transformations: transformations.push(transformation),
            },
            Geometry2DView::Line {
                points,
                line_color,
                line_width,
                line_shape,
                transformations,
            } => Geometry2DView::Line {
                points,
                line_color,
                line_width,
                line_shape,
                transformations: transformations.push(transformation),
            },
            Geometry2DView::Polyline {
                points,
                line_color,
                line_width,
                line_shape,
                transformations,
            } => Geometry2DView::Polyline {
                points,
                line_color,
                line_width,
                line_shape,
                transformations: transformations.push(transformation),
            },
            Geometry2DView::Triangle {
                points,
                fill_color,
                border_color,
                border_width,
                transformations,
            } => Geometry2DView::Triangle {
                points,
                fill_color,
                border_color,
                border_width,
                transformations: transformations.push(transformation),
            },
            Geometry2DView::Square {
                center_position,
                edge_length,
                fill_color,
                border_color,
                border_width,
                corner_shape,
                transformations,
            } => Geometry2DView::Square {
                center_position,
                edge_length,
                fill_color,
                border_color,
                border_width,
                corner_shape,
                transformations: transformations.push(transformation),
            },
            Geometry2DView::Rectangle {
                center_position,
                size,
                fill_color,
                border_color,
                border_width,
                corner_shape,
                transformations,
            } => Geometry2DView::Rectangle {
                center_position,
                size,
                fill_color,
                border_color,
                border_width,
                corner_shape,
                transformations: transformations.push(transformation),
            },
            Geometry2DView::Polygon {
                points,
                fill_color,
                border_color,
                border_width,
                transformations,
            } => Geometry2DView::Polygon {
                points,
                fill_color,
                border_color,
                border_width,
                transformations: transformations.push(transformation),
            },
            Geometry2DView::Circle {
                center_position,
                radius,
                fill_color,
                border_color,
                border_width,
                transformations,
            } => Geometry2DView::Circle {
                center_position,
                radius,
                fill_color,
                border_color,
                border_width,
                transformations: transformations.push(transformation),
            },
            Geometry2DView::Ellipse {
                center_position,
                size,
                fill_color,
                border_color,
                border_width,
                transformations,
            } => Geometry2DView::Ellipse {
                center_position,
                size,
                fill_color,
                border_color,
                border_width,
                transformations: transformations.push(transformation),
            },
            Geometry2DView::Image {
                center_position,
                size,
                texture_source,
                source_rectangle,
                fill_color,
                transformations,
            } => Geometry2DView::Image {
                center_position,
                size,
                texture_source,
                source_rectangle,
                fill_color,
                transformations: transformations.push(transformation),
            },
            Geometry2DView::Group(geometries) => Geometry2DView::Group(
                geometries.map_values(
                    |g: Geometry2DView|
                        // true of every item of the list: it shows that the definition ends
                        if decreases_to!(self => g) {
                            g.append_transformation(transformation)
                        } else {
                            g
                        },
                ),
            ),
        }
    }

    /// On a group, the operation reaches each member.
    pub proof fn append_transformation_in_group(
        geometries: Seq<Geometry2DView>,
        transformation: Transformation2DView,
    )
        ensures
            Geometry2DView::Group(geometries).append_transformation(transformation)
                == Geometry2DView::Group(
                geometries.map_values(|g: Geometry2DView| g.append_transformation(transformation)),
            ),
    {
        let whole = Geometry2DView::Group(geometries);
        let reached = geometries.map_values(
            |g: Geometry2DView| g.append_transformation(transformation),
        );
        assert(whole.append_transformation(transformation)->Group_0 =~= reached);
    }

    /// An operation more in the pipelines changes the values of the vertices,
    /// not their number: a footprint that fits the geometry has the form of
    /// the moved geometry too.
    pub proof fn append_transformation_keeps_form(
        self,
        transformation: Transformation2DView,
        footprint: FootprintView,
    )
        requires
            footprint.fits(self),
        ensures
            footprint.fits(self.append_transformation(transformation)),
        decreases self,
    {
        if let Geometry2DView::Group(geometries) = self {
            Geometry2DView::append_transformation_in_group(geometries, transformation);
            let members = footprint->Group_0;
            assert forall|i: int| 0 <= i < members.len() implies (#[trigger] members[i]).fits(
                geometries[i].append_transformation(transformation),
            ) by {
                geometries[i].append_transformation_keeps_form(transformation, members[i]);
            }
        }
    }
}

impl Geometry2D {
    /// Adds `transformation` at the end of the pipeline of every shape of the
    /// geometry, so that it is applied after the operations already there. Each
    /// shape of a group gets a copy of its own.
    pub fn append_transformation(self, transformation: Transformation2D) -> (r: Geometry2D)
        ensures
            r@ == self@.append_transformation(transformation@),
        decreases self,
    {
        let ghost this = self;
        match self {
            Geometry2D::Point { position, color, transformations } => {
                let mut pipeline = transformations;
                pipeline.append(transformation);
                Geometry2D::Point { position, color, transformations: pipeline }
            },
            Geometry2D::Line {
                points,
                line_color,
                line_width,
                line_shape,
                transformations,
            } => {
                let mut pipeline = transformations;
                pipeline.append(transformation);
                Geometry2D::Line {
                    points,
                    line_color,
                    line_width,
                    line_shape,
                    transformations: pipeline,
                }
            },
            Geometry2D::Polyline {
                points,
                line_color,
                line_width,
                line_shape,
                transformations,
            } => {
                let mut pipeline = transformations;
                pipeline.append(transformation);
                Geometry2D::Polyline {
                    points,
                    line_color,
                    line_width,
                    line_shape,
                    transformations: pipeline,
                }
            },
            Geometry2D::Triangle {
                points,
                fill_color,
                border_color,
                border_width,
                transformations,
            } => {
                let mut pipeline = transformations;
                pipeline.append(transformation);
                Geometry2D::Triangle {
                    points,
                    fill_color,
                    border_color,
                    border_width,
                    transformations: pipeline,
                }
            },
            Geometry2D::Square {
                center_position,
                edge_length,
                fill_color,
                border_color,
                border_width,
                corner_shape,
                transformations,
            } => {
                let mut pipeline = transformations;
                pipeline.append(transformation);
                Geometry2D::Square {
                    center_position,
                    edge_length,
                    fill_color,
                    border_color,
                    border_width,
                    corner_shape,
                    transformations: pipeline,
                }
            },
            Geometry2D::Rectangle {
                center_position,
                size,
                fill_color,
                border_color,
                border_width,
                corner_shape,
                transformations,
            } => {
                let mut pipeline = transformations;
                pipeline.append(transformation);
                Geometry2D::Rectangle {
                    center_position,
                    size,
                    fill_color,
                    border_color,
                    border_width,
                    corner_shape,
                    transformations: pipeline,
                }
            },
            Geometry2D::Polygon {
                points,
                fill_color,
                border_color,
                border_width,
                transformations,
            } => {
                let mut pipeline = transformations;
                pipeline.append(transformation);
                Geometry2D::Polygon {
                    points,
                    fill_color,
                    border_color,
                    border_width,
                    transformations: pipeline,
                }
            },
            Geometry2D::Circle {
                center_position,
                radius,
                fill_color,
                border_color,
                border_width,
                transformations,
            } => {
                let mut pipeline = transformations;
                pipeline.append(transformation);
                Geometry2D::Circle {
                    center_position,
                    radius,
                    fill_color,
                    border_color,
                    border_width,
                    transformations: pipeline,
                }
            },
            Geometry2D::Ellipse {
                center_position,
                size,
                fill_color,
                border_color,
                border_width,
                transformations,
            } => {
                let mut pipeline = transformations;
                pipeline.append(transformation);
                Geometry2D::Ellipse {
                    center_position,
                    size,
                    fill_color,
                    border_color,
                    border_width,
                    transformations: pipeline,
                }
            },
            Geometry2D::Image {
                center_position,
                size,
                texture_source,
                source_rectangle,
                fill_color,
                transformations,
            } => {
                let mut pipeline = transformations;
                pipeline.append(transformation);
                Geometry2D::Image {
                    center_position,
                    size,
                    texture_source,
                    source_rectangle,
                    fill_color,
                    transformations: pipeline,
                }
            },
            Geometry2D::Group(geometries) => {
                let ghost members = geometries;
                let mut changed: Vec<Geometry2D> = Vec::new();
                for geometry in it: geometries
                    invariant
                        it.seq() == members@,
                        this == self,
                        this == Geometry2D::Group(members),
                        changed@.len() == it.index(),
                        forall|i: int|
                            0 <= i < changed@.len() ==> (#[trigger] changed@[i])@
                                == members@[i]@.append_transformation(transformation@),
                {
                    proof {
                        assert(decreases_to!(this => this->Group_0));
                        vstd::std_specs::vec::axiom_vec_index_decreases(
                            members,
                            it.index() as int,
                        );
                    }
                    changed.push(geometry.append_transformation(transformation.clone()));
                }
                let r = Geometry2D::Group(changed);
                let ghost wanted = this@.append_transformation(transformation@);
                assert(r@->Group_0 =~= wanted->Group_0);
                r
            },
        }
    }

    /// Moves the geometry by `distance`: adds that translation to every
    /// pipeline.
    pub fn move_by(self, distance: Vector2D) -> (r: Geometry2D)
        ensures
            r@ == self@.append_transformation(Transformation2DView::Translation(distance)),
    {
        self.append_transformation(Transformation2D::Translation(distance))
    }
}

} // verus!
