//! Which way the facets face. With the corners put at whole-number heights,
//! the cross product of a facet's first two edges is an exact normal; it
//! points out of the solid for every facet of every section.

use vstd::prelude::*;
use crate::facet::{Corner, Facet, Level};
use crate::mesh::mesh_facets;
use crate::planner::{top_surface_count, triangle_count};
use crate::topology::{
    facet_at,
    grid_fits,
    half,
    lemma_place_at_index,
    place_at,
    valid_place,
    Place,
};
use crate::vector::{cartesian_product, dot, multiply, subtract, Vector};

verus! {

/// The point in space of a corner, for surface heights `heights(x, y)` and a
/// floor at `floor_height`.
pub open spec fn position(
    corner: Corner,
    heights: spec_fn(int, int) -> int,
    floor_height: int,
) -> Vector {
    Vector {
        x: corner.x as int,
        y: corner.y as int,
        z: match corner.level {
            Level::Surface => heights(corner.x as int, corner.y as int),
            Level::Floor => floor_height,
        },
    }
}

/// The normal of a facet, not scaled to unit length: the cross product of the
/// edges from `a` to `b` and from `a` to `c`, negated where the facet asks for it.
pub open spec fn normal(
    facet: Facet,
    heights: spec_fn(int, int) -> int,
    floor_height: int,
) -> Vector {
    let a = position(facet.a, heights, floor_height);
    let b = position(facet.b, heights, floor_height);
    let c = position(facet.c, heights, floor_height);
    let winding = cartesian_product(subtract(b, a), subtract(c, a));
    if facet.flip_normal {
        multiply(winding, -1)
    } else {
        winding
    }
}

/// The unit vector that points out of the solid at a section.
pub open spec fn outward(place: Place) -> Vector {
    match place {
        Place::Top { .. } => Vector { x: 0, y: 0, z: 1 },
        Place::Front { .. } => Vector { x: 0, y: -1, z: 0 },
        Place::Back { .. } => Vector { x: 0, y: 1, z: 0 },
        Place::Right { .. } => Vector { x: 1, y: 0, z: 0 },
        Place::Left { .. } => Vector { x: -1, y: 0, z: 0 },
        Place::Floor { .. } => Vector { x: 0, y: 0, z: -1 },
    }
}

/// How far the normal of the facet at a place reaches along the outward
/// direction: 1 on the top surface, the area of the floor rectangle on the
/// floor cap, and on a wall the height of the surface over the floor at the
/// grid position that the facet's upright edge stands on.
pub open spec fn reach(
    width: int,
    height: int,
    place: Place,
    heights: spec_fn(int, int) -> int,
    floor_height: int,
) -> int {
    match place {
        Place::Top { .. } => 1,
        Place::Front { i, second } => heights(i + half(second), 0) - floor_height,
        Place::Back { i, second } => heights(i + half(second), height - 1)
            - floor_height,
        Place::Right { j, second } => heights(width - 1, j + half(second))
            - floor_height,
        Place::Left { j, second } => heights(0, j + half(second)) - floor_height,
        Place::Floor { .. } => (width - 1) * (height - 1),
    }
}

/// Whether the surface lies on or above the floor all over the grid.
pub open spec fn above_floor(
    width: int,
    height: int,
    heights: spec_fn(int, int) -> int,
    floor_height: int,
) -> bool {
    forall|x: int, y: int|
        0 <= x < width && 0 <= y < height ==> #[trigger] heights(x, y) >= floor_height
}

/// The normal of every facet is the outward direction of its section, scaled
/// by the facet's reach. So the facets of the top surface face up and those
/// of the floor cap face down whatever the heights are, and the normal of a
/// wall facet is level and has no sideways part.
pub proof fn lemma_normal_is_outward(
    width: int,
    height: int,
    place: Place,
    heights: spec_fn(int, int) -> int,
    floor_height: int,
)
    requires
        grid_fits(width, height),
        valid_place(width, height, place),
    ensures
        !(place is Top) ==> normal(facet_at(width, height, place), heights, floor_height)
            == multiply(outward(place), reach(width, height, place, heights, floor_height)),
        place is Top ==> normal(facet_at(width, height, place), heights, floor_height).z == 1,
        place is Top || place is Floor ==> reach(width, height, place, heights, floor_height) > 0,
{
    let facet = facet_at(width, height, place);
    let a = position(facet.a, heights, floor_height);
    let u = subtract(position(facet.b, heights, floor_height), a);
    let v = subtract(position(facet.c, heights, floor_height), a);
    let r = reach(width, height, place, heights, floor_height);
    let o = outward(place);
    if place is Floor {
        assert(r >= 1) by (nonlinear_arith)
            requires
                r == (width - 1) * (height - 1),
                width >= 2,
                height >= 2,
        ;
        assert(u.z == 0 && v.z == 0 && u.x == width - 1 && v.y == -(height - 1));
        assert(u.y == 0 || v.x == 0);
        assert(u.y * v.z == 0 && u.z * v.y == 0 && u.z * v.x == 0 && u.x * v.z == 0 && u.y * v.x
            == 0 && u.x * v.y == -r) by (nonlinear_arith)
            requires
                u.z == 0,
                v.z == 0,
                u.y == 0 || v.x == 0,
                u.x == width - 1,
                v.y == -(height - 1),
                r == (width - 1) * (height - 1),
        ;
    } else {
        lemma_unit_factor(u.y, v.z);
        lemma_unit_factor(v.y, u.z);
        lemma_unit_factor(v.x, u.z);
        lemma_unit_factor(u.x, v.z);
        lemma_unit_factor(u.x, v.y);
        lemma_unit_factor(u.y, v.x);
    }
    lemma_unit_factor(o.x, r);
    lemma_unit_factor(o.y, r);
    lemma_unit_factor(o.z, r);
}

/// Products with a factor of -1, 0 or 1.
proof fn lemma_unit_factor(a: int, b: int)
    requires
        -1 <= a <= 1,
    ensures
        a == 0 ==> a * b == 0 && b * a == 0,
        a == 1 ==> a * b == b && b * a == b,
        a == -1 ==> a * b == -b && b * a == -b,
{
    assert(a == 0 ==> a * b == 0 && b * a == 0) by (nonlinear_arith);
    assert(a == 1 ==> a * b == b && b * a == b) by (nonlinear_arith);
    assert(a == -1 ==> a * b == -b && b * a == -b) by (nonlinear_arith);
}

/// Along the outward direction of its section, the normal of a facet has the
/// length of the facet's reach.
pub proof fn lemma_normal_along_outward(
    width: int,
    height: int,
    place: Place,
    heights: spec_fn(int, int) -> int,
    floor_height: int,
)
    requires
        grid_fits(width, height),
        valid_place(width, height, place),
    ensures
        dot(normal(facet_at(width, height, place), heights, floor_height), outward(place))
            == reach(width, height, place, heights, floor_height),
{
    lemma_normal_is_outward(width, height, place, heights, floor_height);
    let n = normal(facet_at(width, height, place), heights, floor_height);
    let o = outward(place);
    let r = reach(width, height, place, heights, floor_height);
    if place is Top {
        assert(n.x * o.x + n.y * o.y + n.z * o.z == 1) by (nonlinear_arith)
            requires
                o.x == 0,
                o.y == 0,
                o.z == 1,
                n.z == 1,
        ;
    } else {
        assert((o.x * r) * o.x + (o.y * r) * o.y + (o.z * r) * o.z == r) by (nonlinear_arith)
            requires
                (o.x == 0 && o.y == 0 && (o.z == 1 || o.z == -1)) || (o.x == 0 && o.z == 0 && (o.y
                    == 1 || o.y == -1)) || (o.y == 0 && o.z == 0 && (o.x == 1 || o.x == -1)),
        ;
    }
}

/// Where the surface lies on or above the floor, no facet faces into the
/// solid: its normal never points against the outward direction of its
/// section, and the facets of the top surface and of the floor cap face
/// strictly outward. A wall facet whose normal is the zero vector has no
/// area: the surface touches the floor at its upright edge.
pub proof fn lemma_no_facet_faces_inward(
    width: int,
    height: int,
    place: Place,
    heights: spec_fn(int, int) -> int,
    floor_height: int,
)
    requires
        grid_fits(width, height),
        valid_place(width, height, place),
        above_floor(width, height, heights, floor_height),
    ensures
        dot(normal(facet_at(width, height, place), heights, floor_height), outward(place)) >= 0,
        place is Top || place is Floor ==> dot(
            normal(facet_at(width, height, place), heights, floor_height),
            outward(place),
        ) > 0,
{
    lemma_normal_is_outward(width, height, place, heights, floor_height);
    lemma_normal_along_outward(width, height, place, heights, floor_height);
    match place {
        Place::Front { i, second } => {
            assert(heights(i + half(second), 0) >= floor_height);
        },
        Place::Back { i, second } => {
            assert(heights(i + half(second), height - 1) >= floor_height);
        },
        Place::Right { j, second } => {
            assert(heights(width - 1, j + half(second)) >= floor_height);
        },
        Place::Left { j, second } => {
            assert(heights(0, j + half(second)) >= floor_height);
        },
        _ => {},
    }
}

/// The same for the generated mesh, index by index: no facet of the mesh
/// faces into the solid where the surface lies on or above the floor. The
/// facets of the top surface, which come first, have a normal that points up
/// whatever the heights are, and the two facets of the floor cap, which come
/// last, have one that points down.
pub proof fn lemma_mesh_faces_outward(
    width: int,
    height: int,
    k: int,
    heights: spec_fn(int, int) -> int,
    floor_height: int,
)
    requires
        grid_fits(width, height),
        0 <= k < triangle_count(width, height),
    ensures
        k < top_surface_count(width, height) ==> normal(
            mesh_facets(width, height)[k],
            heights,
            floor_height,
        ).z > 0,
        k >= triangle_count(width, height) - 2 ==> normal(
            mesh_facets(width, height)[k],
            heights,
            floor_height,
        ).z < 0,
        above_floor(width, height, heights, floor_height) ==> dot(
            normal(mesh_facets(width, height)[k], heights, floor_height),
            outward(place_at(width, height, k)),
        ) >= 0,
{
    let place = place_at(width, height, k);
    lemma_place_at_index(width, height, k);
    lemma_normal_is_outward(width, height, place, heights, floor_height);
    lemma_unit_factor(outward(place).z, reach(width, height, place, heights, floor_height));
    if above_floor(width, height, heights, floor_height) {
        lemma_no_facet_faces_inward(width, height, place, heights, floor_height);
    }
}

} // verus!
