//! Viewports, and the operation that carries one viewport onto another.

use vstd::prelude::*;
use crate::geometry::Geometry2D;
use crate::math::{Position2D, Size2D, Vector2D};
use crate::scalar::Scalar;
use crate::transformation::{Transformation2D, Transformation2DView};

verus! {

/// A visible rectangle of the plane and the direction of its axes.
#[derive(Clone, Copy, Debug, PartialEq, Eq, Structural)]
pub struct Viewport2D {
    pub center: Position2D,
    pub size: Size2D,
    pub flipped_x_axis: bool,
    pub flipped_y_axis: bool,
}

/// The view into three-dimensional space. It holds nothing yet.
#[derive(Clone, Copy, Debug, PartialEq, Eq, Structural)]
pub struct Viewport3D {}

/// How a visualiser fits a geometry into a viewport of another aspect ratio.
#[derive(Clone, Copy, Debug, PartialEq, Eq, Structural)]
pub enum Viewport2DModification {
    /// Stretch along each axis on its own.
    LooseAspectRatio,
    /// Scale both axes alike.
    KeepAspectRatio,
    /// Scale both axes alike and cut off what lies outside.
    KeepAspectRatioAndScissorRemains,
}

impl Default for Viewport2DModification {
    /// Stretching along each axis on its own.
    fn default() -> (r: Viewport2DModification)
        ensures
            r == Viewport2DModification::LooseAspectRatio,
    {
        Viewport2DModification::LooseAspectRatio
    }
}

/// The numbers that carry a source viewport onto a target viewport. They come
/// out of arithmetic on the coordinates of the two, which is the caller's.
#[derive(Clone, Copy, Debug, PartialEq, Eq, Structural)]
pub struct ViewportRemap {
    /// The displacement from the source's centre to the origin.
    pub source_to_origin: Vector2D,
    /// The target's width divided by the source's.
    pub x_factor: Scalar,
    /// The target's height divided by the source's.
    pub y_factor: Scalar,
    /// The displacement from the origin to the target's centre.
    pub origin_to_target: Vector2D,
}

impl Viewport2D {
    /// The viewport around `center` of the given size, with neither axis flipped.
    pub fn with(center: Position2D, size: Size2D) -> (r: Viewport2D)
        ensures
            r == (Viewport2D { center, size, flipped_x_axis: false, flipped_y_axis: false }),
    {
        Viewport2D { center, size, flipped_x_axis: false, flipped_y_axis: false }
    }

    /// This viewport with the flip of its x axis set to `flipped`.
    pub fn flipped_x_axis(&self, flipped: bool) -> (r: Viewport2D)
        ensures
            r == (Viewport2D { flipped_x_axis: flipped, ..*self }),
    {
        Viewport2D {
            center: self.center,
            size: self.size,
            flipped_x_axis: flipped,
            flipped_y_axis: self.flipped_y_axis,
        }
    }

    /// This viewport with the flip of its y axis set to `flipped`.
    pub fn flipped_y_axis(&self, flipped: bool) -> (r: Viewport2D)
        ensures
            r == (Viewport2D { flipped_y_axis: flipped, ..*self }),
    {
        Viewport2D {
            center: self.center,
            size: self.size,
            flipped_x_axis: self.flipped_x_axis,
            flipped_y_axis: flipped,
        }
    }

    /// The steps that carry `self` onto `target`, in the order in which they
    /// are applied: the source's centre goes to the origin; the y axis is
    /// reflected if the two viewports flip it differently, then the x axis
    /// likewise; each axis is scaled by its factor; the origin goes to the
    /// target's centre.
    pub open spec fn steps_to(self, target: Viewport2D, remap: ViewportRemap) -> Seq<
        Transformation2DView,
    > {
        seq![Transformation2DView::Translation(remap.source_to_origin)] + (if self.flipped_y_axis
            != target.flipped_y_axis {
            seq![Transformation2DView::ReflectionY]
        } else {
            seq![]
        }) + (if self.flipped_x_axis != target.flipped_x_axis {
            seq![Transformation2DView::ReflectionX]
        } else {
            seq![]
        }) + seq![
            Transformation2DView::Scale(remap.x_factor, remap.y_factor),
            Transformation2DView::Translation(remap.origin_to_target),
        ]
    }

    /// The composition that carries `self` onto `target`.
    pub open spec fn composition_to(
        self,
        target: Viewport2D,
        remap: ViewportRemap,
    ) -> Transformation2DView {
        Transformation2DView::Composition(
            "ViewportTransformation"@,
            self.steps_to(target, remap),
        )
    }

    /// The operation that carries this viewport onto `target`: one composition,
    /// named `ViewportTransformation`, of three to five steps.
    pub fn transformation_to(&self, target: &Viewport2D, remap: &ViewportRemap) -> (r:
        Transformation2D)
        ensures
            r@ == self.composition_to(*target, *remap),
    {
        let mut steps: Vec<Transformation2D> = Vec::new();
        steps.push(Transformation2D::translation(remap.source_to_origin));
        if self.flipped_y_axis != target.flipped_y_axis {
            steps.push(Transformation2D::reflection_y());
        }
        if self.flipped_x_axis != target.flipped_x_axis {
            steps.push(Transformation2D::reflection_x());
        }
        steps.push(Transformation2D::scale(remap.x_factor, remap.y_factor));
        steps.push(Transformation2D::translation(remap.origin_to_target));
        assert(crate::transformation::views_of(steps@) =~= self.steps_to(*target, *remap));
        Transformation2D::composition("ViewportTransformation".to_string(), steps)
    }
}

impl Geometry2D {
    /// Carries the geometry from `source_viewport` onto `target_viewport`: adds
    /// the composition of [`Viewport2D::transformation_to`] to every pipeline.
    pub fn transform(
        self,
        source_viewport: &Viewport2D,
        target_viewport: &Viewport2D,
        remap: &ViewportRemap,
    ) -> (r: Geometry2D)
        ensures
            r@ == self@.append_transformation(
                source_viewport.composition_to(*target_viewport, *remap),
            ),
    {
        self.append_transformation(source_viewport.transformation_to(target_viewport, remap))
    }
}

} // verus!
