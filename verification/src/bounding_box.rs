//! The bounds of a geometry, folded from its transformed vertices.
//!
//! Applying a pipeline to a vertex is arithmetic on scalars, which this library
//! leaves to its caller. What the caller hands back is a [`Footprint`]: for
//! each shape its vertices after its pipeline was applied, for each group the
//! footprints of its members. The extreme corners are folded from that.

use vstd::prelude::*;
use crate::geometry::{Geometry2D, Geometry2DView, models_of};
use crate::math::Position2D;
use crate::scalar::{Scalar, GREATEST_FINITE_BITS, LEAST_FINITE_BITS};

verus! {

/// The transformed vertices of a geometry.
#[derive(Debug, PartialEq)]
pub enum Footprint {
    /// The vertices of one shape, each after the shape's pipeline.
    Shape(Vec<Position2D>),
    /// The footprints of the members of a group.
    Group(Vec<Footprint>),
}

/// What a [`Footprint`] holds.
pub enum FootprintView {
    Shape(Seq<Position2D>),
    Group(Seq<FootprintView>),
}

/// The corner of two positions: the upper one or the lower one.
pub open spec fn merged(a: Position2D, b: Position2D, upper: bool) -> Position2D {
    if upper {
        a.spec_upper(b)
    } else {
        a.spec_lower(b)
    }
}

/// The corner of what is there: of two positions their corner, of one position
/// that position, of none nothing.
pub open spec fn merged_present(
    a: Option<Position2D>,
    b: Option<Position2D>,
    upper: bool,
) -> Option<Position2D> {
    match (a, b) {
        (Some(p), Some(q)) => Some(merged(p, q, upper)),
        (Some(_), None) => a,
        (None, _) => b,
    }
}

/// The corner of all the positions that are there, folded from the left;
/// nothing if none is there.
pub open spec fn corner_of(items: Seq<Option<Position2D>>, upper: bool) -> Option<Position2D> {
    items.fold_left(
        None,
        |corner: Option<Position2D>, item: Option<Position2D>| merged_present(corner, item, upper),
    )
}

/// The views of a list of footprints, item by item.
pub open spec fn footprints_of(list: Seq<Footprint>) -> Seq<FootprintView> {
    list.map_values(|f: Footprint| f.model())
}

impl FootprintView {
    /// What is folded into the extreme corner: of a shape its vertices, of a
    /// group the extreme corners of its members, member by member.
    pub open spec fn parts(self, upper: bool) -> Seq<Option<Position2D>>
        decreases self, 0int,
    {
        match self {
            FootprintView::Shape(vertices) => vertices.map_values(|p: Position2D| Some(p)),
            FootprintView::Group(members) => members.map_values(
                |m: FootprintView|
                    // true of every item of the list: it shows that the definition ends
                    if decreases_to!(self => m) {
                        m.extreme(upper)
                    } else {
                        None
                    },
            ),
        }
    }

    /// The extreme corner of the footprint: of a shape, the corner of its
    /// vertices; of a group, the corner of the extreme corners of those members
    /// that have one. A shape without vertices has none, nor has a group
    /// without a member that has one.
    pub open spec fn extreme(self, upper: bool) -> Option<Position2D>
        decreases self, 1int,
    {
        corner_of(self.parts(upper), upper)
    }

    /// The parts of a group are the extreme corners of its members.
    pub proof fn parts_of_group(members: Seq<FootprintView>, upper: bool)
        ensures
            FootprintView::Group(members).parts(upper) == members.map_values(
                |m: FootprintView| m.extreme(upper),
            ),
    {
        let whole = FootprintView::Group(members);
        assert(decreases_to!(whole => whole->Group_0));
        assert(whole.parts(upper) =~= members.map_values(|m: FootprintView| m.extreme(upper)));
    }

    /// The lower corner, or the greatest finite number twice where there is
    /// none.
    pub open spec fn minimum(self) -> Position2D {
        match self.extreme(false) {
            Some(p) => p,
            None => Position2D {
                x: Scalar { bits: GREATEST_FINITE_BITS },
                y: Scalar { bits: GREATEST_FINITE_BITS },
            },
        }
    }

    /// The upper corner, or the least finite number twice where there is none.
    pub open spec fn maximum(self) -> Position2D {
        match self.extreme(true) {
            Some(p) => p,
            None => Position2D {
                x: Scalar { bits: LEAST_FINITE_BITS },
                y: Scalar { bits: LEAST_FINITE_BITS },
            },
        }
    }
}

impl Footprint {
    /// The footprint as a value of the model.
    pub open spec fn model(self) -> FootprintView
        decreases self,
    {
        match self {
            Footprint::Shape(vertices) => FootprintView::Shape(vertices@),
            Footprint::Group(members) => FootprintView::Group(
                members@.map_values(
                    |f: Footprint|
                        // true of every item of the list: it shows that the definition ends
                        if decreases_to!(self => f) {
                            f.model()
                        } else {
                            FootprintView::Group(Seq::empty())
                        },
                ),
            ),
        }
    }

    /// The view of a group lists the views of its members.
    pub proof fn group_view(members: Vec<Footprint>)
        ensures
            Footprint::Group(members)@ == FootprintView::Group(footprints_of(members@)),
    {
        let whole = Footprint::Group(members);
        assert(decreases_to!(whole => whole->Group_0));
        assert forall|i: int| 0 <= i < members@.len() implies decreases_to!(
            whole => members@[i],
        ) by {
            vstd::std_specs::vec::axiom_vec_index_decreases(members, i);
        }
        assert(whole@->Group_0 =~= footprints_of(members@));
    }
}

impl View for Footprint {
    type V = FootprintView;

    open spec fn view(&self) -> FootprintView {
        self.model()
    }
}

/// The corner of two positions.
fn merge_two_positions(a: Position2D, b: Position2D, upper: bool) -> (r: Position2D)
    ensures
        r == merged(a, b, upper),
{
    if upper {
        a.upper(b)
    } else {
        a.lower(b)
    }
}

/// The corner of what is there.
fn merge_present(a: Option<Position2D>, b: Option<Position2D>, upper: bool) -> (r: Option<
    Position2D,
>)
    ensures
        r == merged_present(a, b, upper),
{
    match (a, b) {
        (Some(p), Some(q)) => Some(merge_two_positions(p, q, upper)),
        (Some(_), None) => a,
        (None, _) => b,
    }
}

/// Folding one item more.
proof fn corner_of_push(items: Seq<Option<Position2D>>, item: Option<Position2D>, upper: bool)
    ensures
        corner_of(items.push(item), upper) == merged_present(corner_of(items, upper), item, upper),
{
    assert(items.push(item).drop_last() =~= items);
}

impl Footprint {
    /// The upper corner of the footprint if `upper`, else its lower corner;
    /// `None` where the footprint holds no vertex at all.
    pub fn conditional_position_in_transformed_bounding_box(&self, upper: bool) -> (r: Option<
        Position2D,
    >)
        ensures
            r == self@.extreme(upper),
        decreases self,
    {
        let mut corner: Option<Position2D> = None;
        match self {
            Footprint::Shape(vertices) => {
                let ghost items = vertices@.map_values(|p: Position2D| Some(p));
                let mut i: usize = 0;
                while i < vertices.len()
                    invariant
                        i <= vertices.len(),
                        items == vertices@.map_values(|p: Position2D| Some(p)),
                        corner == corner_of(items.subrange(0, i as int), upper),
                    decreases vertices.len() - i,
                {
                    proof {
                        corner_of_push(items.subrange(0, i as int), items[i as int], upper);
                        assert(items.subrange(0, i as int).push(items[i as int])
                            =~= items.subrange(0, i + 1));
                    }
                    corner = merge_present(corner, Some(vertices[i]), upper);
                    i += 1;
                }
                assert(items.subrange(0, i as int) =~= items);
            },
            Footprint::Group(members) => {
                let ghost items = footprints_of(members@).map_values(
                    |m: FootprintView| m.extreme(upper),
                );
                let mut i: usize = 0;
                while i < members.len()
                    invariant
                        i <= members.len(),
                        *self == Footprint::Group(*members),
                        items == footprints_of(members@).map_values(
                            |m: FootprintView| m.extreme(upper),
                        ),
                        corner == corner_of(items.subrange(0, i as int), upper),
                    decreases members.len() - i,
                {
                    proof {
                        assert(decreases_to!(*self => self->Group_0));
                        vstd::std_specs::vec::axiom_vec_index_decreases(*members, i as int);
                        corner_of_push(items.subrange(0, i as int), items[i as int], upper);
                        assert(items.subrange(0, i as int).push(items[i as int])
                            =~= items.subrange(0, i + 1));
                    }
                    let of_member = members[i].conditional_position_in_transformed_bounding_box(
                        upper,
                    );
                    corner = merge_present(corner, of_member, upper);
                    i += 1;
                }
                proof {
                    assert(items.subrange(0, i as int) =~= items);
                    Footprint::group_view(*members);
                    FootprintView::parts_of_group(footprints_of(members@), upper);
                }
            },
        }
        corner
    }

    /// The lower corner of the bounds. Where the footprint holds no vertex, both
    /// coordinates are the greatest finite number: a mark for "no bounds", not
    /// a position.
    pub fn minimum_position_in_transformed_bounding_box(&self) -> (r: Position2D)
        ensures
            r == self@.minimum(),
    {
        match self.conditional_position_in_transformed_bounding_box(false) {
            Some(p) => p,
            None => Position2D::with(Scalar::greatest_finite(), Scalar::greatest_finite()),
        }
    }

    /// The upper corner of the bounds. Where the footprint holds no vertex, both
    /// coordinates are the least finite number: a mark for "no bounds", not a
    /// position.
    pub fn maximum_position_in_transformed_bounding_box(&self) -> (r: Position2D)
        ensures
            r == self@.maximum(),
    {
        match self.conditional_position_in_transformed_bounding_box(true) {
            Some(p) => p,
            None => Position2D::with(Scalar::least_finite(), Scalar::least_finite()),
        }
    }
}

/// Whether the corner `c` bounds the position `v`: from above if `upper`, else
/// from below, in each coordinate.
pub open spec fn bounds(c: Position2D, v: Position2D, upper: bool) -> bool {
    if upper {
        c.x.above(v.x) && c.y.above(v.y)
    } else {
        c.x.below(v.x) && c.y.below(v.y)
    }
}

/// Whether none of the items is there.
pub open spec fn none_present(items: Seq<Option<Position2D>>) -> bool {
    forall|i: int| 0 <= i < items.len() ==> (#[trigger] items[i]) is None
}

/// Whether `c` bounds every item that is there.
pub open spec fn bounds_all(c: Position2D, items: Seq<Option<Position2D>>, upper: bool) -> bool {
    forall|i: int|
        0 <= i < items.len() && (#[trigger] items[i]) is Some ==> bounds(
            c,
            items[i].unwrap(),
            upper,
        )
}

/// Whether some item that is there has the x of `c`, and some the y of `c`.
pub open spec fn touches(c: Position2D, items: Seq<Option<Position2D>>) -> bool {
    &&& exists|i: int|
        0 <= i < items.len() && (#[trigger] items[i]) is Some && items[i].unwrap().x == c.x
    &&& exists|i: int|
        0 <= i < items.len() && (#[trigger] items[i]) is Some && items[i].unwrap().y == c.y
}

/// The corner of a list of positions: there is none exactly when no position is
/// there; else it bounds every position that is there, and each of its
/// coordinates is that of one of them.
pub proof fn corner_of_bounds(items: Seq<Option<Position2D>>, upper: bool)
    ensures
        corner_of(items, upper) is None <==> none_present(items),
        corner_of(items, upper) matches Some(c) ==> bounds_all(c, items, upper) && touches(
            c,
            items,
        ),
    decreases items.len(),
{
    if items.len() == 0 {
    } else {
        let before = items.drop_last();
        let last = items.last();
        corner_of_bounds(before, upper);
        assert(before.push(last) =~= items);
        corner_of_push(before, last, upper);
        assert forall|i: int| 0 <= i < before.len() implies #[trigger] before[i] == items[i] by {}
        match (corner_of(before, upper), last) {
            (None, None) => {
                assert forall|i: int| 0 <= i < items.len() implies (#[trigger] items[i])
                    is None by {
                    if i < before.len() {
                        assert(before[i] is None);
                    }
                }
            },
            (None, Some(q)) => {
                let at = items.len() - 1;
                assert(items[at] == Some(q));
                crate::scalar::bounds_chain(q.x, q.x, q.x);
                crate::scalar::bounds_chain(q.y, q.y, q.y);
                assert forall|i: int|
                    0 <= i < items.len() && (#[trigger] items[i]) is Some implies bounds(
                    q,
                    items[i].unwrap(),
                    upper,
                ) by {
                    if i < before.len() {
                        assert(before[i] is None);
                    }
                }
            },
            (Some(p), None) => {
                let i_x = choose|i: int|
                    0 <= i < before.len() && (#[trigger] before[i]) is Some && before[i].unwrap().x
                        == p.x;
                let i_y = choose|i: int|
                    0 <= i < before.len() && (#[trigger] before[i]) is Some && before[i].unwrap().y
                        == p.y;
                assert(items[i_x] is Some && items[i_x].unwrap().x == p.x);
                assert(items[i_y] is Some && items[i_y].unwrap().y == p.y);
                assert forall|i: int|
                    0 <= i < items.len() && (#[trigger] items[i]) is Some implies bounds(
                    p,
                    items[i].unwrap(),
                    upper,
                ) by {
                    assert(i < before.len());
                    assert(before[i] is Some);
                }
            },
            (Some(p), Some(q)) => {
                let c = merged(p, q, upper);
                let at = items.len() - 1;
                assert(items[at] == Some(q));
                crate::scalar::min_is_lower_bound(p.x, q.x);
                crate::scalar::min_is_lower_bound(p.y, q.y);
                crate::scalar::max_is_upper_bound(p.x, q.x);
                crate::scalar::max_is_upper_bound(p.y, q.y);
                let i_x = choose|i: int|
                    0 <= i < before.len() && (#[trigger] before[i]) is Some && before[i].unwrap().x
                        == p.x;
                let i_y = choose|i: int|
                    0 <= i < before.len() && (#[trigger] before[i]) is Some && before[i].unwrap().y
                        == p.y;
                assert(items[i_x] is Some && items[i_x].unwrap().x == p.x);
                assert(items[i_y] is Some && items[i_y].unwrap().y == p.y);
                assert(items[if c.x == p.x { i_x } else { at }].unwrap().x == c.x);
                assert(items[if c.y == p.y { i_y } else { at }].unwrap().y == c.y);
                assert forall|i: int|
                    0 <= i < items.len() && (#[trigger] items[i]) is Some implies bounds(
                    c,
                    items[i].unwrap(),
                    upper,
                ) by {
                    if i < before.len() {
                        assert(before[i] is Some);
                        let v = before[i].unwrap();
                        assert(bounds(p, v, upper));
                        crate::scalar::bounds_chain(c.x, p.x, v.x);
                        crate::scalar::bounds_chain(c.y, p.y, v.y);
                    }
                }
            },
        }
    }
}

impl FootprintView {
    /// Whether `p` is a vertex of some shape of the footprint.
    pub open spec fn has_vertex(self, p: Position2D) -> bool
        decreases self,
    {
        match self {
            FootprintView::Shape(vertices) => vertices.contains(p),
            FootprintView::Group(members) => exists|i: int|
                0 <= i < members.len() && (#[trigger] members[i]).has_vertex(p),
        }
    }

    /// Whether the footprint holds no vertex at all.
    pub open spec fn is_empty(self) -> bool {
        forall|p: Position2D| !self.has_vertex(p)
    }

    /// The extreme corner and the vertices: there is no corner exactly when
    /// there is no vertex; else the corner bounds `v` if `v` is a vertex, and
    /// each of its coordinates is that of some vertex.
    pub proof fn extreme_bounds(self, upper: bool, v: Position2D)
        ensures
            self.extreme(upper) is None <==> self.is_empty(),
            self.extreme(upper) matches Some(c) ==> {
                &&& self.has_vertex(v) ==> bounds(c, v, upper)
                &&& exists|w: Position2D| self.has_vertex(w) && w.x == c.x
                &&& exists|w: Position2D| self.has_vertex(w) && w.y == c.y
            },
        decreases self,
    {
        let parts = self.parts(upper);
        corner_of_bounds(parts, upper);
        match self {
            FootprintView::Shape(vertices) => {
                assert forall|i: int| 0 <= i < vertices.len() implies self.has_vertex(
                    #[trigger] vertices[i],
                ) && parts[i] == Some(vertices[i]) by {}
                if self.extreme(upper) is None {
                    assert forall|p: Position2D| !self.has_vertex(p) by {
                        if self.has_vertex(p) {
                            let i = choose|i: int| 0 <= i < vertices.len() && vertices[i] == p;
                            assert(parts[i] is Some);
                        }
                    }
                } else {
                    let c = self.extreme(upper).unwrap();
                    let i_x = choose|i: int|
                        0 <= i < parts.len() && (#[trigger] parts[i]) is Some && parts[i].unwrap().x
                            == c.x;
                    let i_y = choose|i: int|
                        0 <= i < parts.len() && (#[trigger] parts[i]) is Some && parts[i].unwrap().y
                            == c.y;
                    assert(self.has_vertex(vertices[i_x]) && vertices[i_x].x == c.x);
                    assert(self.has_vertex(vertices[i_y]) && vertices[i_y].y == c.y);
                    if self.has_vertex(v) {
                        let i = choose|i: int| 0 <= i < vertices.len() && vertices[i] == v;
                        assert(parts[i] is Some);
                    }
                }
            },
            FootprintView::Group(members) => {
                FootprintView::parts_of_group(members, upper);
                assert forall|i: int| 0 <= i < members.len() implies #[trigger] parts[i]
                    == members[i].extreme(upper) by {}
                if self.extreme(upper) is None {
                    assert forall|p: Position2D| !self.has_vertex(p) by {
                        if self.has_vertex(p) {
                            let i = choose|i: int|
                                0 <= i < members.len() && (#[trigger] members[i]).has_vertex(p);
                            members[i].extreme_bounds(upper, p);
                            assert(parts[i] is None);
                        }
                    }
                } else {
                    let c = self.extreme(upper).unwrap();
                    let i_x = choose|i: int|
                        0 <= i < parts.len() && (#[trigger] parts[i]) is Some && parts[i].unwrap().x
                            == c.x;
                    let i_y = choose|i: int|
                        0 <= i < parts.len() && (#[trigger] parts[i]) is Some && parts[i].unwrap().y
                            == c.y;
                    members[i_x].extreme_bounds(upper, v);
                    members[i_y].extreme_bounds(upper, v);
                    let w_x = choose|w: Position2D|
                        members[i_x].has_vertex(w) && w.x == parts[i_x].unwrap().x;
                    let w_y = choose|w: Position2D|
                        members[i_y].has_vertex(w) && w.y == parts[i_y].unwrap().y;
                    assert(self.has_vertex(w_x) && w_x.x == c.x);
                    assert(self.has_vertex(w_y) && w_y.y == c.y);
                    if self.has_vertex(v) {
                        let i = choose|i: int|
                            0 <= i < members.len() && (#[trigger] members[i]).has_vertex(v);
                        members[i].extreme_bounds(upper, v);
                        assert(parts[i] is Some);
                        let m = parts[i].unwrap();
                        assert(bounds(c, m, upper));
                        assert(bounds(m, v, upper));
                        crate::scalar::bounds_chain(c.x, m.x, v.x);
                        crate::scalar::bounds_chain(c.y, m.y, v.y);
                    }
                }
            },
        }
    }
}

impl Geometry2DView {
    /// The number of vertices that span a shape: one for a point, two for a
    /// line, three for a triangle, as many as it has points for a polyline or
    /// a polygon, and the four corners of the box round a square, a rectangle,
    /// a circle, an ellipse or an image. A group has no vertices of its own.
    pub open spec fn vertex_count(self) -> Option<nat> {
        match self {
            Geometry2DView::Point { .. } => Some(1),
            Geometry2DView::Line { .. } => Some(2),
            Geometry2DView::Polyline { points, .. } => Some(points.len()),
            Geometry2DView::Triangle { .. } => Some(3),
            Geometry2DView::Square { .. } => Some(4),
            Geometry2DView::Rectangle { .. } => Some(4),
            Geometry2DView::Polygon { points, .. } => Some(points.len()),
            Geometry2DView::Circle { .. } => Some(4),
            Geometry2DView::Ellipse { .. } => Some(4),
            Geometry2DView::Image { .. } => Some(4),
            Geometry2DView::Group(_) => None,
        }
    }

    /// Whether no shape of the geometry has a vertex: every shape in it is a
    /// polyline or a polygon without points, if there is a shape in it at all.
    pub open spec fn has_no_vertex(self) -> bool
        decreases self,
    {
        match self {
            Geometry2DView::Group(geometries) => forall|i: int|
                0 <= i < geometries.len() ==> (#[trigger] geometries[i]).has_no_vertex(),
            shape => shape.vertex_count() == Some(0nat),
        }
    }
}

impl FootprintView {
    /// Whether the footprint has the form of `geometry`: shape for shape as
    /// many vertices as span it, group for group as many members, each fitting
    /// its geometry.
    pub open spec fn fits(self, geometry: Geometry2DView) -> bool
        decreases self,
    {
        match self {
            FootprintView::Shape(vertices) => geometry.vertex_count() == Some(vertices.len()),
            FootprintView::Group(members) => {
                &&& geometry matches Geometry2DView::Group(geometries)
                &&& members.len() == geometries.len()
                &&& forall|i: int|
                    0 <= i < members.len() ==> (#[trigger] members[i]).fits(geometries[i])
            },
        }
    }

    /// A footprint that fits a geometry holds no vertex exactly when no shape
    /// of the geometry has one: then, and only then, the geometry has no
    /// bounds.
    pub proof fn fitting_is_empty(self, geometry: Geometry2DView)
        requires
            self.fits(geometry),
        ensures
            self.is_empty() <==> geometry.has_no_vertex(),
        decreases self,
    {
        match self {
            FootprintView::Shape(vertices) => {
                if vertices.len() > 0 {
                    assert(self.has_vertex(vertices[0]));
                }
            },
            FootprintView::Group(members) => {
                let geometries = geometry->Group_0;
                if geometry.has_no_vertex() {
                    assert forall|p: Position2D| !self.has_vertex(p) by {
                        if self.has_vertex(p) {
                            let i = choose|i: int|
                                0 <= i < members.len() && (#[trigger] members[i]).has_vertex(p);
                            members[i].fitting_is_empty(geometries[i]);
                        }
                    }
                }
                if self.is_empty() {
                    assert forall|i: int| 0 <= i < geometries.len() implies (
                    #[trigger] geometries[i]).has_no_vertex() by {
                        members[i].fitting_is_empty(geometries[i]);
                        assert forall|p: Position2D| !members[i].has_vertex(p) by {
                            assert(!self.has_vertex(p));
                        }
                    }
                }
            },
        }
    }
}

impl Geometry2D {
    /// The number of vertices that span the shape; `None` for a group.
    pub fn vertex_count(&self) -> (r: Option<usize>)
        ensures
            r is Some <==> self@.vertex_count() is Some,
            r matches Some(n) ==> self@.vertex_count() == Some(n as nat),
    {
        match self {
            Geometry2D::Point { .. } => Some(1),
            Geometry2D::Line { .. } => Some(2),
            Geometry2D::Polyline { points, .. } => Some(points.len()),
            Geometry2D::Triangle { .. } => Some(3),
            Geometry2D::Square { .. } => Some(4),
            Geometry2D::Rectangle { .. } => Some(4),
            Geometry2D::Polygon { points, .. } => Some(points.len()),
            Geometry2D::Circle { .. } => Some(4),
            Geometry2D::Ellipse { .. } => Some(4),
            Geometry2D::Image { .. } => Some(4),
            Geometry2D::Group(_) => None,
        }
    }

    /// The lower corner of the bounds of the geometry, whose transformed
    /// vertices are `footprint`. Where no shape of the geometry has a vertex,
    /// both coordinates are the greatest finite number: a mark for "no
    /// bounds", not a position.
    pub fn minimum_position_in_transformed_bounding_box(&self, footprint: &Footprint) -> (r:
        Position2D)
        requires
            footprint@.fits(self@),
        ensures
            r == footprint@.minimum(),
            self@.has_no_vertex() <==> footprint@.extreme(false) is None,
    {
        proof {
            footprint@.fitting_is_empty(self@);
            footprint@.extreme_bounds(false, arbitrary());
        }
        footprint.minimum_position_in_transformed_bounding_box()
    }

    /// The upper corner of the bounds of the geometry, whose transformed
    /// vertices are `footprint`. Where no shape of the geometry has a vertex,
    /// both coordinates are the least finite number: a mark for "no bounds",
    /// not a position.
    pub fn maximum_position_in_transformed_bounding_box(&self, footprint: &Footprint) -> (r:
        Position2D)
        requires
            footprint@.fits(self@),
        ensures
            r == footprint@.maximum(),
            self@.has_no_vertex() <==> footprint@.extreme(true) is None,
    {
        proof {
            footprint@.fitting_is_empty(self@);
            footprint@.extreme_bounds(true, arbitrary());
        }
        footprint.maximum_position_in_transformed_bounding_box()
    }
}

impl Footprint {
    /// Whether the footprint has the form of `geometry`.
    pub fn fits(&self, geometry: &Geometry2D) -> (r: bool)
        ensures
            r == self@.fits(geometry@),
        decreases self,
    {
        match self {
            Footprint::Shape(vertices) => {
                match geometry.vertex_count() {
                    Some(n) => n == vertices.len(),
                    None => false,
                }
            },
            Footprint::Group(members) => {
                proof {
                    Footprint::group_view(*members);
                }
                match geometry {
                    Geometry2D::Group(geometries) => {
                        proof {
                            Geometry2D::group_view(*geometries);
                        }
                        if members.len() != geometries.len() {
                            return false;
                        }
                        let mut i: usize = 0;
                        while i < members.len()
                            invariant
                                i <= members.len(),
                                members.len() == geometries.len(),
                                *self == Footprint::Group(*members),
                                self@ == FootprintView::Group(footprints_of(members@)),
                                geometry@ == Geometry2DView::Group(models_of(geometries@)),
                                forall|k: int|
                                    0 <= k < i ==> (#[trigger] footprints_of(members@)[k]).fits(
                                        models_of(geometries@)[k],
                                    ),
                            decreases members.len() - i,
                        {
                            proof {
                                assert(decreases_to!(*self => self->Group_0));
                                vstd::std_specs::vec::axiom_vec_index_decreases(*members, i as int);
                            }
                            if !members[i].fits(&geometries[i]) {
                                assert(!footprints_of(members@)[i as int].fits(
                                    models_of(geometries@)[i as int],
                                ));
                                return false;
                            }
                            i += 1;
                        }
                        true
                    },
                    _ => false,
                }
            },
        }
    }
}

} // verus!
