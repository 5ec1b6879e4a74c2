//! Affine operations on the plane and the pipeline of them that a shape carries.
//!
//! An operation is a description: its numbers are kept as given. A pipeline
//! lists operations in the order in which they are applied to a point, the
//! first of the list first.

use vstd::prelude::*;
use crate::math::{Matrix3x3, Row, Vector2D};
use crate::scalar::{Scalar, MINUS_ONE_BITS, ONE_BITS, ZERO_BITS};

verus! {

/// One affine operation.
#[derive(Debug, PartialEq)]
pub enum Transformation2D {
    /// Moves by a displacement.
    Translation(Vector2D),
    /// Changes nothing.
    Identity,
    /// Rotates around the origin by an angle in radians.
    Rotation(Scalar),
    /// Scales by one factor along x and another along y.
    Scale(Scalar, Scalar),
    /// Scales by the same factor along both axes.
    IsotropicScale(Scalar),
    /// Negates the x-scale term.
    ReflectionX,
    /// Negates the y-scale term.
    ReflectionY,
    /// Shears along x by an amount.
    ShearX(Scalar),
    /// Shears along y by an amount.
    ShearY(Scalar),
    /// Shears along x by the tangent of an angle in radians.
    ShearXByAngle(Scalar),
    /// Shears along y by the tangent of an angle in radians.
    ShearYByAngle(Scalar),
    /// A named list of operations, applied in the order of the list.
    Composition(String, Vec<Transformation2D>),
    /// A named matrix, applied as it is.
    Custom(String, Matrix3x3),
}

/// What a [`Transformation2D`] holds.
pub enum Transformation2DView {
    Translation(Vector2D),
    Identity,
    Rotation(Scalar),
    Scale(Scalar, Scalar),
    IsotropicScale(Scalar),
    ReflectionX,
    ReflectionY,
    ShearX(Scalar),
    ShearY(Scalar),
    ShearXByAngle(Scalar),
    ShearYByAngle(Scalar),
    Composition(Seq<char>, Seq<Transformation2DView>),
    Custom(Seq<char>, Matrix3x3),
}

/// The views of a list of operations, item by item.
pub open spec fn views_of(list: Seq<Transformation2D>) -> Seq<Transformation2DView> {
    list.map_values(|t: Transformation2D| t.model())
}

impl Transformation2D {
    /// The operation as a value of the model.
    pub open spec fn model(self) -> Transformation2DView
        decreases self,
    {
        match self {
            Transformation2D::Translation(direction) => Transformation2DView::Translation(
                direction,
            ),
            Transformation2D::Identity => Transformation2DView::Identity,
            Transformation2D::Rotation(angle) => Transformation2DView::Rotation(angle),
            Transformation2D::Scale(x_factor, y_factor) => Transformation2DView::Scale(
                x_factor,
                y_factor,
            ),
            Transformation2D::IsotropicScale(factor) => Transformation2DView::IsotropicScale(
                factor,
            ),
            Transformation2D::ReflectionX => Transformation2DView::ReflectionX,
            Transformation2D::ReflectionY => Transformation2DView::ReflectionY,
            Transformation2D::ShearX(amount) => Transformation2DView::ShearX(amount),
            Transformation2D::ShearY(amount) => Transformation2DView::ShearY(amount),
            Transformation2D::ShearXByAngle(angle) => Transformation2DView::ShearXByAngle(angle),
            Transformation2D::ShearYByAngle(angle) => Transformation2DView::ShearYByAngle(angle),
            Transformation2D::Composition(name, list) => Transformation2DView::Composition(
                name@,
                list@.map_values(
                    |t: Transformation2D|
                        // true of every item of the list: it shows that the definition ends
                        if decreases_to!(self => t) {
                            t.model()
                        } else {
                            Transformation2DView::Identity
                        },
                ),
            ),
            Transformation2D::Custom(name, matrix) => Transformation2DView::Custom(name@, matrix),
        }
    }

    /// The view of a composition lists the views of its operations.
    pub proof fn composition_view(name: String, list: Vec<Transformation2D>)
        ensures
            Transformation2D::Composition(name, list)@ == Transformation2DView::Composition(
                name@,
                views_of(list@),
            ),
    {
        let whole = Transformation2D::Composition(name, list);
        assert(decreases_to!(whole => whole->Composition_1));
        assert forall|i: int| 0 <= i < list@.len() implies decreases_to!(whole => list@[i]) by {
            vstd::std_specs::vec::axiom_vec_index_decreases(list, i);
        }
        assert(whole@->Composition_1 =~= views_of(list@));
    }
}

impl Transformation2D {
    /// The operation that moves by `direction`.
    pub fn translation(direction: Vector2D) -> (r: Transformation2D)
        ensures
            r@ == Transformation2DView::Translation(direction),
    {
        Transformation2D::Translation(direction)
    }

    /// The operation that scales by `x_factor` along x and by `y_factor` along y.
    pub fn scale(x_factor: Scalar, y_factor: Scalar) -> (r: Transformation2D)
        ensures
            r@ == Transformation2DView::Scale(x_factor, y_factor),
    {
        Transformation2D::Scale(x_factor, y_factor)
    }

    /// The operation that negates the x-scale term.
    pub fn reflection_x() -> (r: Transformation2D)
        ensures
            r@ == Transformation2DView::ReflectionX,
    {
        Transformation2D::ReflectionX
    }

    /// The operation that negates the y-scale term.
    pub fn reflection_y() -> (r: Transformation2D)
        ensures
            r@ == Transformation2DView::ReflectionY,
    {
        Transformation2D::ReflectionY
    }

    /// The operation that applies those of the list, the first first, under
    /// the given name.
    pub fn composition(name: String, transformations: Vec<Transformation2D>) -> (r:
        Transformation2D)
        ensures
            r@ == Transformation2DView::Composition(name@, views_of(transformations@)),
    {
        proof {
            Transformation2D::composition_view(name, transformations);
        }
        Transformation2D::Composition(name, transformations)
    }
}

/// The bottom row of the matrix of every affine operation: `0 0 1`.
pub open spec fn bottom_row() -> Row {
    (Scalar { bits: ZERO_BITS }, Scalar { bits: ZERO_BITS }, Scalar { bits: ONE_BITS })
}

impl Transformation2DView {
    /// The top and middle row of the matrix of an operation whose matrix holds
    /// nothing but 0, 1, -1 and the operation's own numbers: the identity with
    /// the displacement as its last column for a translation, the factors on
    /// the diagonal for a scaling, -1 in place of the x-scale or the y-scale
    /// term for a reflection, the amount beside the diagonal for a shear. The
    /// bottom row of each is `0 0 1`. A rotation, a shear by an angle and a
    /// composition need arithmetic; a custom operation has its matrix with it.
    pub open spec fn written_rows(self) -> Option<(Row, Row)> {
        let zero = Scalar { bits: ZERO_BITS };
        let one = Scalar { bits: ONE_BITS };
        let minus_one = Scalar { bits: MINUS_ONE_BITS };
        match self {
            Transformation2DView::Translation(direction) => Some(
                ((one, zero, direction.x), (zero, one, direction.y)),
            ),
            Transformation2DView::Identity => Some(((one, zero, zero), (zero, one, zero))),
            Transformation2DView::Scale(x_factor, y_factor) => Some(
                ((x_factor, zero, zero), (zero, y_factor, zero)),
            ),
            Transformation2DView::IsotropicScale(factor) => Some(
                ((factor, zero, zero), (zero, factor, zero)),
            ),
            Transformation2DView::ReflectionX => Some(((minus_one, zero, zero), (zero, one, zero))),
            Transformation2DView::ReflectionY => Some(((one, zero, zero), (zero, minus_one, zero))),
            Transformation2DView::ShearX(amount) => Some(((one, amount, zero), (zero, one, zero))),
            Transformation2DView::ShearY(amount) => Some(((one, zero, zero), (amount, one, zero))),
            _ => None,
        }
    }
}

impl Transformation2D {
    /// The matrix of the operation, where it can be had without arithmetic:
    /// written down from the operation's numbers, or the matrix that a custom
    /// operation carries. `None` for a rotation, a shear by an angle and a
    /// composition.
    pub fn matrix_without_arithmetic(&self) -> (r: Option<Matrix3x3>)
        ensures
            match self@ {
                Transformation2DView::Custom(_, matrix) => r == Some(matrix),
                other => match other.written_rows() {
                    Some((top, middle)) => r matches Some(m) && m.has_rows(
                        top,
                        middle,
                        bottom_row(),
                    ),
                    None => r is None,
                },
            },
    {
        let zero = Scalar::zero();
        let one = Scalar::one();
        let bottom = (zero, zero, one);
        match self {
            Transformation2D::Translation(direction) => Some(
                Matrix3x3::of_rows((one, zero, direction.x), (zero, one, direction.y), bottom),
            ),
            Transformation2D::Identity => Some(
                Matrix3x3::of_rows((one, zero, zero), (zero, one, zero), bottom),
            ),
            Transformation2D::Scale(x_factor, y_factor) => Some(
                Matrix3x3::of_rows((*x_factor, zero, zero), (zero, *y_factor, zero), bottom),
            ),
            Transformation2D::IsotropicScale(factor) => Some(
                Matrix3x3::of_rows((*factor, zero, zero), (zero, *factor, zero), bottom),
            ),
            Transformation2D::ReflectionX => Some(
                Matrix3x3::of_rows((Scalar::minus_one(), zero, zero), (zero, one, zero), bottom),
            ),
            Transformation2D::ReflectionY => Some(
                Matrix3x3::of_rows((one, zero, zero), (zero, Scalar::minus_one(), zero), bottom),
            ),
            Transformation2D::ShearX(amount) => Some(
                Matrix3x3::of_rows((one, *amount, zero), (zero, one, zero), bottom),
            ),
            Transformation2D::ShearY(amount) => Some(
                Matrix3x3::of_rows((one, zero, zero), (*amount, one, zero), bottom),
            ),
            Transformation2D::Custom(_, matrix) => Some(*matrix),
            _ => None,
        }
    }
}

impl View for Transformation2D {
    type V = Transformation2DView;

    open spec fn view(&self) -> Transformation2DView {
        self.model()
    }
}

impl Clone for Transformation2D {
    /// A copy that holds the same as `self`.
    fn clone(&self) -> (r: Transformation2D)
        ensures
            r@ == self@,
        decreases self,
    {
        match self {
            Transformation2D::Translation(direction) => Transformation2D::Translation(*direction),
            Transformation2D::Identity => Transformation2D::Identity,
            Transformation2D::Rotation(angle) => Transformation2D::Rotation(*angle),
            Transformation2D::Scale(x_factor, y_factor) => Transformation2D::Scale(
                *x_factor,
                *y_factor,
            ),
            Transformation2D::IsotropicScale(factor) => Transformation2D::IsotropicScale(*factor),
            Transformation2D::ReflectionX => Transformation2D::ReflectionX,
            Transformation2D::ReflectionY => Transformation2D::ReflectionY,
            Transformation2D::ShearX(amount) => Transformation2D::ShearX(*amount),
            Transformation2D::ShearY(amount) => Transformation2D::ShearY(*amount),
            Transformation2D::ShearXByAngle(angle) => Transformation2D::ShearXByAngle(*angle),
            Transformation2D::ShearYByAngle(angle) => Transformation2D::ShearYByAngle(*angle),
            Transformation2D::Composition(name, list) => {
                let mut copies: Vec<Transformation2D> = Vec::new();
                let mut i: usize = 0;
                while i < list.len()
                    invariant
                        i <= list.len(),
                        *self == Transformation2D::Composition(*name, *list),
                        copies@.len() == i,
                        forall|k: int| 0 <= k < i ==> (#[trigger] copies@[k])@ == list@[k]@,
                    decreases list.len() - i,
                {
                    proof {
                        assert(decreases_to!(*self => self->Composition_1));
                        vstd::std_specs::vec::axiom_vec_index_decreases(*list, i as int);
                    }
                    copies.push(list[i].clone());
                    i += 1;
                }
                let name_copy = name.clone();
                proof {
                    Transformation2D::composition_view(*name, *list);
                    Transformation2D::composition_view(name_copy, copies);
                    assert(views_of(copies@) =~= views_of(list@));
                }
                Transformation2D::Composition(name_copy, copies)
            },
            Transformation2D::Custom(name, matrix) => Transformation2D::Custom(
                name.clone(),
                *matrix,
            ),
        }
    }
}

impl Transformation2DView {
    /// The same operations, the last first: the list of every composition in
    /// it, at any depth, is reversed. An operation that is no composition stays
    /// as it is.
    ///
    /// To undo an operation, each single operation in it is replaced by its
    /// inverse, which is arithmetic and the caller's, and the order is turned
    /// round, which is this.
    pub open spec fn in_reverse_order(self) -> Transformation2DView
        decreases self,
    {
        match self {
            Transformation2DView::Composition(name, list) => Transformation2DView::Composition(
                name,
                list.map_values(
                    |t: Transformation2DView|
                        // true of every item of the list: it shows that the definition ends
                        if decreases_to!(self => t) {
                            t.in_reverse_order()
                        } else {
                            t
                        },
                ).reverse(),
            ),
            _ => self,
        }
    }

    /// In a composition, each operation of the list is turned round and the
    /// list is reversed.
    pub proof fn composition_in_reverse_order(name: Seq<char>, list: Seq<Transformation2DView>)
        ensures
            Transformation2DView::Composition(name, list).in_reverse_order()
                == Transformation2DView::Composition(name, reversed(list)),
    {
        assert(Transformation2DView::Composition(name, list).in_reverse_order()->Composition_1
            =~= reversed(list));
    }

    /// Turning the order round twice gives the operation back.
    pub proof fn in_reverse_order_twice(self)
        ensures
            self.in_reverse_order().in_reverse_order() == self,
        decreases self,
    {
        match self {
            Transformation2DView::Composition(name, list) => {
                Transformation2DView::composition_in_reverse_order(name, list);
                Transformation2DView::composition_in_reverse_order(name, reversed(list));
                reversed_twice(list);
            },
            _ => {},
        }
    }
}

/// The operations of a list, each turned round, the last first.
pub open spec fn reversed(list: Seq<Transformation2DView>) -> Seq<Transformation2DView> {
    list.map_values(|t: Transformation2DView| t.in_reverse_order()).reverse()
}

/// Reversing a list twice gives the list back.
pub proof fn reversed_twice(list: Seq<Transformation2DView>)
    ensures
        reversed(reversed(list)) == list,
    decreases list,
{
    assert forall|i: int| 0 <= i < list.len() implies #[trigger] reversed(reversed(list))[i]
        == list[i] by {
        list[i].in_reverse_order_twice();
    }
    assert(reversed(reversed(list)) =~= list);
}

impl Transformation2D {
    /// The same operations, the last first: see
    /// [`Transformation2DView::in_reverse_order`].
    pub fn in_reverse_order(self) -> (r: Transformation2D)
        ensures
            r@ == self@.in_reverse_order(),
        decreases self,
    {
        let ghost this = self;
        match self {
            Transformation2D::Composition(name, list) => {
                let ghost whole = list;
                let mut rest = list;
                let mut turned: Vec<Transformation2D> = Vec::new();
                while rest.len() > 0
                    invariant
                        this == self,
                        this == Transformation2D::Composition(name, whole),
                        rest@.len() + turned@.len() == whole@.len(),
                        rest@ == whole@.subrange(0, rest@.len() as int),
                        forall|k: int|
                            0 <= k < turned@.len() ==> (#[trigger] turned@[k])@ == whole@[
                                whole@.len() - 1 - k
                            ]@.in_reverse_order(),
                    decreases rest.len(),
                {
                    let ghost at = rest@.len() - 1;
                    let last = rest.pop().unwrap();
                    proof {
                        assert(last == whole@[at]);
                        assert(decreases_to!(this => this->Composition_1));
                        vstd::std_specs::vec::axiom_vec_index_decreases(whole, at);
                    }
                    turned.push(last.in_reverse_order());
                }
                proof {
                    Transformation2D::composition_view(name, whole);
                    Transformation2D::composition_view(name, turned);
                    Transformation2DView::composition_in_reverse_order(name@, views_of(whole@));
                    assert(views_of(turned@) =~= reversed(views_of(whole@)));
                }
                Transformation2D::Composition(name, turned)
            },
            single => single,
        }
    }
}

/// The pipeline of a shape: its operations in the order in which they are
/// applied to a point.
#[derive(Debug, PartialEq)]
pub struct Transformations2D {
    pub transformations: Vec<Transformation2D>,
}

impl View for Transformations2D {
    type V = Seq<Transformation2DView>;

    open spec fn view(&self) -> Seq<Transformation2DView> {
        views_of(self.transformations@)
    }
}

impl Default for Transformations2D {
    /// The pipeline without operations.
    fn default() -> (r: Transformations2D)
        ensures
            r@ == Seq::<Transformation2DView>::empty(),
    {
        let r = Transformations2D { transformations: Vec::new() };
        assert(r@ =~= Seq::<Transformation2DView>::empty());
        r
    }
}

impl Clone for Transformations2D {
    /// A copy that holds the same as `self`.
    fn clone(&self) -> (r: Transformations2D)
        ensures
            r@ == self@,
    {
        let mut copies: Vec<Transformation2D> = Vec::new();
        let mut i: usize = 0;
        while i < self.transformations.len()
            invariant
                i <= self.transformations.len(),
                copies@.len() == i,
                forall|k: int| 0 <= k < i ==> (#[trigger] copies@[k])@ == self.transformations@[k]@,
            decreases self.transformations.len() - i,
        {
            copies.push(self.transformations[i].clone());
            i += 1;
        }
        let r = Transformations2D { transformations: copies };
        assert(r@ =~= self@);
        r
    }
}

impl Transformations2D {
    /// The pipeline that applies the given operations in the order of the list.
    pub fn with(transformations: Vec<Transformation2D>) -> (r: Transformations2D)
        ensures
            r@ == views_of(transformations@),
    {
        Transformations2D { transformations }
    }

    /// Adds an operation at the end: it is applied after all the others.
    pub fn append(&mut self, transformation: Transformation2D)
        ensures
            final(self)@ == old(self)@.push(transformation@),
    {
        self.transformations.push(transformation);
        assert(self@ =~= old(self)@.push(transformation@));
    }

    /// The pipeline with the same operations, the last first: the list is
    /// reversed and each operation turned round.
    pub fn in_reverse_order(self) -> (r: Transformations2D)
        ensures
            r@ == reversed(self@),
    {
        let ghost whole = self.transformations;
        let mut rest = self.transformations;
        let mut turned: Vec<Transformation2D> = Vec::new();
        while rest.len() > 0
            invariant
                rest@.len() + turned@.len() == whole@.len(),
                rest@ == whole@.subrange(0, rest@.len() as int),
                forall|k: int|
                    0 <= k < turned@.len() ==> (#[trigger] turned@[k])@ == whole@[whole@.len() - 1
                        - k]@.in_reverse_order(),
            decreases rest.len(),
        {
            let last = rest.pop().unwrap();
            turned.push(last.in_reverse_order());
        }
        let r = Transformations2D { transformations: turned };
        assert(r@ =~= reversed(views_of(whole@)));
        r
    }

    /// The number of operations.
    pub fn len(&self) -> (r: usize)
        ensures
            r == self@.len(),
    {
        self.transformations.len()
    }
}

} // verus!
