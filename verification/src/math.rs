//! Points, displacements and sizes in the plane.

use vstd::prelude::*;
use crate::scalar::Scalar;

verus! {

/// A point of the plane.
#[derive(Clone, Copy, Debug, PartialEq, Eq, Structural)]
pub struct Position2D {
    pub x: Scalar,
    pub y: Scalar,
}

/// A displacement in the plane.
#[derive(Clone, Copy, Debug, PartialEq, Eq, Structural)]
pub struct Vector2D {
    pub x: Scalar,
    pub y: Scalar,
}

/// A width and a height.
#[derive(Clone, Copy, Debug, PartialEq, Eq, Structural)]
pub struct Size2D {
    pub width: Scalar,
    pub height: Scalar,
}

/// A 3x3 matrix in row-major order, acting on column vectors `[x, y, 1]`.
#[derive(Clone, Copy, Debug, PartialEq, Eq)]
pub struct Matrix3x3 {
    pub rows: [[Scalar; 3]; 3],
}

impl Position2D {
    /// The point with the given coordinates.
    pub fn with(x: Scalar, y: Scalar) -> (r: Position2D)
        ensures
            r == (Position2D { x, y }),
    {
        Position2D { x, y }
    }

    /// The origin.
    pub fn zero() -> (r: Position2D)
        ensures
            r == (Position2D { x: Scalar { bits: 0 }, y: Scalar { bits: 0 } }),
    {
        Position2D { x: Scalar::zero(), y: Scalar::zero() }
    }

    /// The point whose coordinates are the smaller ones of `self` and `other`.
    pub open spec fn spec_lower(self, other: Position2D) -> Position2D {
        Position2D { x: self.x.spec_min(other.x), y: self.y.spec_min(other.y) }
    }

    /// The point whose coordinates are the larger ones of `self` and `other`.
    pub open spec fn spec_upper(self, other: Position2D) -> Position2D {
        Position2D { x: self.x.spec_max(other.x), y: self.y.spec_max(other.y) }
    }

    /// The point whose coordinates are the smaller ones of `self` and `other`.
    pub fn lower(self, other: Position2D) -> (r: Position2D)
        ensures
            r == self.spec_lower(other),
    {
        Position2D { x: self.x.min(other.x), y: self.y.min(other.y) }
    }

    /// The point whose coordinates are the larger ones of `self` and `other`.
    pub fn upper(self, other: Position2D) -> (r: Position2D)
        ensures
            r == self.spec_upper(other),
    {
        Position2D { x: self.x.max(other.x), y: self.y.max(other.y) }
    }
}

impl Vector2D {
    /// The displacement with the given components.
    pub fn with(x: Scalar, y: Scalar) -> (r: Vector2D)
        ensures
            r == (Vector2D { x, y }),
    {
        Vector2D { x, y }
    }

    /// The displacement that moves nothing.
    pub fn zero() -> (r: Vector2D)
        ensures
            r == (Vector2D { x: Scalar { bits: 0 }, y: Scalar { bits: 0 } }),
    {
        Vector2D { x: Scalar::zero(), y: Scalar::zero() }
    }
}

impl Size2D {
    /// The size with the given width and height.
    pub fn with(width: Scalar, height: Scalar) -> (r: Size2D)
        ensures
            r == (Size2D { width, height }),
    {
        Size2D { width, height }
    }
}

/// The three entries of one row of a matrix.
pub type Row = (Scalar, Scalar, Scalar);

impl Matrix3x3 {
    /// Whether the rows of the matrix are `top`, `middle` and `bottom`.
    pub open spec fn has_rows(self, top: Row, middle: Row, bottom: Row) -> bool {
        &&& self.rows[0][0] == top.0
        &&& self.rows[0][1] == top.1
        &&& self.rows[0][2] == top.2
        &&& self.rows[1][0] == middle.0
        &&& self.rows[1][1] == middle.1
        &&& self.rows[1][2] == middle.2
        &&& self.rows[2][0] == bottom.0
        &&& self.rows[2][1] == bottom.1
        &&& self.rows[2][2] == bottom.2
    }

    /// The matrix with the given rows.
    pub fn with(rows: [[Scalar; 3]; 3]) -> (r: Matrix3x3)
        ensures
            r.rows == rows,
    {
        Matrix3x3 { rows }
    }

    /// The matrix whose rows are `top`, `middle` and `bottom`.
    pub fn of_rows(top: Row, middle: Row, bottom: Row) -> (r: Matrix3x3)
        ensures
            r.has_rows(top, middle, bottom),
    {
        Matrix3x3 {
            rows: [
                [top.0, top.1, top.2],
                [middle.0, middle.1, middle.2],
                [bottom.0, bottom.1, bottom.2],
            ],
        }
    }
}

} // verus!
