//! Shapes of three-dimensional space.

use vstd::prelude::*;

verus! {

/// The shapes of space. There is none yet: the one variant holds a value of a
/// type without values, so no value of this type exists.
#[derive(Debug, PartialEq)]
pub enum Geometry3D {
    /// Stands for the shapes to come; it cannot be built.
    Unbuildable(core::convert::Infallible),
}

impl Clone for Geometry3D {
    /// A copy of a shape of space, of which there is none.
    fn clone(&self) -> (r: Geometry3D)
        ensures
            r == *self,
    {
        match self {
            Geometry3D::Unbuildable(never) => Geometry3D::Unbuildable(*never),
        }
    }
}

} // verus!
