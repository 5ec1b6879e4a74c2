//! How the ends of lines and the corners of boxes are drawn.

use vstd::prelude::*;
use crate::scalar::Scalar;

verus! {

/// The shape of the ends of a line or polyline.
#[derive(Clone, Copy, Debug, PartialEq, Eq, Structural)]
pub enum LineShape {
    /// Square ends.
    Square,
    /// Round ends.
    Round,
    /// Bevelled ends.
    Bevel,
}

/// The shape of the corners of a square or rectangle.
#[derive(Clone, Copy, Debug, PartialEq, Eq, Structural)]
pub enum CornerShape {
    /// Square corners.
    Square,
    /// Round corners: the radius, and the resolution of each corner.
    Round(Scalar, u32),
    /// Bevelled corners: the amount cut off.
    Bevel(Scalar),
}

} // verus!
