//! How the facets of the solid meet: every edge is walked once in each
//! direction, so the surface has no boundary. The one exception is the rim of
//! the floor, where the two large facets of the floor cap meet the many small
//! facets at the foot of the walls.

use vstd::prelude::*;
use crate::facet::{reversed, Corner, Facet, Level};
use crate::mesh::{
    back_facet,
    floor_facet,
    front_facet,
    left_facet,
    lemma_top_surface_cell,
    mesh_facets,
    right_facet,
    top_facet,
    top_index,
};
use crate::planner::{
    column_wall_count,
    row_wall_count,
    top_surface_count,
    triangle_count,
};
use vstd::arithmetic::div_mod::{lemma_div_pos_is_pos, lemma_fundamental_div_mod, lemma_mod_bound};

verus! {

/// Where a facet stands in the solid: its section, its step along the section
/// and which of the step's two facets it is.
pub enum Place {
    Top { i: int, j: int, second: bool },
    Front { i: int, second: bool },
    Back { i: int, second: bool },
    Right { j: int, second: bool },
    Left { j: int, second: bool },
    Floor { second: bool },
}

/// Whether a grid of this size has such a place.
pub open spec fn valid_place(width: int, height: int, place: Place) -> bool {
    match place {
        Place::Top { i, j, second } => 0 <= i < width - 1 && 0 <= j < height - 1,
        Place::Front { i, second } => 0 <= i < width - 1,
        Place::Back { i, second } => 0 <= i < width - 1,
        Place::Right { j, second } => 0 <= j < height - 1,
        Place::Left { j, second } => 0 <= j < height - 1,
        Place::Floor { second } => true,
    }
}

/// The facet that stands at a place.
pub open spec fn facet_at(width: int, height: int, place: Place) -> Facet {
    match place {
        Place::Top { i, j, second } => top_facet(i, j, second),
        Place::Front { i, second } => front_facet(i, second),
        Place::Back { i, second } => back_facet(height, i, second),
        Place::Right { j, second } => right_facet(width, j, second),
        Place::Left { j, second } => left_facet(j, second),
        Place::Floor { second } => floor_facet(width, height, second),
    }
}

/// A half-edge: one facet's walk along one of its three edges.
pub open spec fn valid_half_edge(width: int, height: int, place: Place, slot: int) -> bool {
    valid_place(width, height, place) && 0 <= slot < 3
}

/// The directed edge that a half-edge walks.
pub open spec fn half_edge(width: int, height: int, place: Place, slot: int) -> (Corner, Corner) {
    facet_at(width, height, place).edge(slot)
}

/// Whether a directed edge lies in the floor plane along one side of the floor
/// rectangle: both ends on the floor, on one grid line.
pub open spec fn on_floor_rim(edge: (Corner, Corner)) -> bool {
    edge.0.level == Level::Floor && edge.1.level == Level::Floor && (edge.0.x == edge.1.x
        || edge.0.y == edge.1.y)
}

/// The half-edge that walks the same edge the other way, for every half-edge
/// off the floor rim; `None` on the rim.
pub open spec fn twin(width: int, height: int, place: Place, slot: int) -> Option<(Place, int)> {
    match place {
        Place::Top { i, j, second: false } => if slot == 0 {
            if j == 0 {
                Some((Place::Front { i, second: true }, 0int))
            } else {
                Some((Place::Top { i, j: j - 1, second: true }, 1int))
            }
        } else if slot == 1 {
            Some((Place::Top { i, j, second: true }, 2int))
        } else {
            if i == 0 {
                Some((Place::Left { j, second: true }, 1int))
            } else {
                Some((Place::Top { i: i - 1, j, second: true }, 0int))
            }
        },
        Place::Top { i, j, second: true } => if slot == 0 {
            if i == width - 2 {
                Some((Place::Right { j, second: true }, 0int))
            } else {
                Some((Place::Top { i: i + 1, j, second: false }, 2int))
            }
        } else if slot == 1 {
            if j == height - 2 {
                Some((Place::Back { i, second: true }, 1int))
            } else {
                Some((Place::Top { i, j: j + 1, second: false }, 0int))
            }
        } else {
            Some((Place::Top { i, j, second: false }, 1int))
        },
        Place::Front { i, second: false } => if slot == 0 {
            None
        } else if slot == 1 {
            Some((Place::Front { i, second: true }, 1int))
        } else {
            if i == 0 {
                Some((Place::Left { j: 0, second: false }, 2int))
            } else {
                Some((Place::Front { i: i - 1, second: true }, 2int))
            }
        },
        Place::Front { i, second: true } => if slot == 0 {
            Some((Place::Top { i, j: 0, second: false }, 0int))
        } else if slot == 1 {
            Some((Place::Front { i, second: false }, 1int))
        } else {
            if i == width - 2 {
                Some((Place::Right { j: 0, second: false }, 2int))
            } else {
                Some((Place::Front { i: i + 1, second: false }, 2int))
            }
        },
        Place::Back { i, second: false } => if slot == 0 {
            Some((Place::Back { i, second: true }, 0int))
        } else if slot == 1 {
            None
        } else {
            if i == 0 {
                Some((Place::Left { j: height - 2, second: true }, 2int))
            } else {
                Some((Place::Back { i: i - 1, second: true }, 2int))
            }
        },
        Place::Back { i, second: true } => if slot == 0 {
            Some((Place::Back { i, second: false }, 0int))
        } else if slot == 1 {
            Some((Place::Top { i, j: height - 2, second: true }, 1int))
        } else {
            if i == width - 2 {
                Some((Place::Right { j: height - 2, second: true }, 2int))
            } else {
                Some((Place::Back { i: i + 1, second: false }, 2int))
            }
        },
        Place::Right { j, second: false } => if slot == 0 {
            None
        } else if slot == 1 {
            Some((Place::Right { j, second: true }, 1int))
        } else {
            if j == 0 {
                Some((Place::Front { i: width - 2, second: true }, 2int))
            } else {
                Some((Place::Right { j: j - 1, second: true }, 2int))
            }
        },
        Place::Right { j, second: true } => if slot == 0 {
            Some((Place::Top { i: width - 2, j, second: true }, 0int))
        } else if slot == 1 {
            Some((Place::Right { j, second: false }, 1int))
        } else {
            if j == height - 2 {
                Some((Place::Back { i: width - 2, second: true }, 2int))
            } else {
                Some((Place::Right { j: j + 1, second: false }, 2int))
            }
        },
        Place::Left { j, second: false } => if slot == 0 {
            Some((Place::Left { j, second: true }, 0int))
        } else if slot == 1 {
            None
        } else {
            if j == 0 {
                Some((Place::Front { i: 0, second: false }, 2int))
            } else {
                Some((Place::Left { j: j - 1, second: true }, 2int))
            }
        },
        Place::Left { j, second: true } => if slot == 0 {
            Some((Place::Left { j, second: false }, 0int))
        } else if slot == 1 {
            Some((Place::Top { i: 0, j, second: false }, 2int))
        } else {
            if j == height - 2 {
                Some((Place::Back { i: 0, second: false }, 2int))
            } else {
                Some((Place::Left { j: j + 1, second: false }, 2int))
            }
        },
        Place::Floor { second: false } => if slot == 0 {
            Some((Place::Floor { second: true }, 2int))
        } else {
            None
        },
        Place::Floor { second: true } => if slot == 2 {
            Some((Place::Floor { second: false }, 0int))
        } else {
            None
        },
    }
}

/// Grids whose positions fit the corners' coordinates.
pub open spec fn grid_fits(width: int, height: int) -> bool {
    2 <= width <= u32::MAX && 2 <= height <= u32::MAX
}

/// Off the floor rim the solid is closed: every half-edge has a twin, a
/// half-edge of another facet that walks the same edge the other way, and the
/// twin's twin is the half-edge itself. The half-edges without a twin are
/// exactly those on the floor rim.
pub proof fn lemma_twin(width: int, height: int, place: Place, slot: int)
    requires
        grid_fits(width, height),
        valid_half_edge(width, height, place, slot),
    ensures
        twin(width, height, place, slot).is_none() <==> on_floor_rim(
            half_edge(width, height, place, slot),
        ),
        twin(width, height, place, slot) matches Some((other, other_slot)) ==> {
            &&& valid_half_edge(width, height, other, other_slot)
            &&& other != place
            &&& half_edge(width, height, other, other_slot) == reversed(
                half_edge(width, height, place, slot),
            )
            &&& twin(width, height, other, other_slot) == Some((place, slot))
        },
{
}

/// No edge is walked twice in the same direction: two different half-edges
/// never walk the same directed edge.
pub proof fn lemma_half_edges_distinct(
    width: int,
    height: int,
    place: Place,
    slot: int,
    other: Place,
    other_slot: int,
)
    requires
        grid_fits(width, height),
        valid_half_edge(width, height, place, slot),
        valid_half_edge(width, height, other, other_slot),
        place != other || slot != other_slot,
    ensures
        half_edge(width, height, place, slot) != half_edge(width, height, other, other_slot),
{
}

/// Whether a directed edge joins two neighbouring grid positions along a grid line.
pub open spec fn is_unit_step(edge: (Corner, Corner)) -> bool {
    let dx = edge.1.x - edge.0.x;
    let dy = edge.1.y - edge.0.y;
    (dy == 0 && (dx == 1 || dx == -1)) || (dx == 0 && (dy == 1 || dy == -1))
}

/// Whether the walk from `from` to `to` is part of the walk from `start` to
/// `end` on the number line, in the same direction.
pub open spec fn within_walk(from: int, to: int, start: int, end: int) -> bool {
    (start <= from < to <= end) || (start >= from > to >= end)
}

/// Whether `piece` is part of the floor-rim edge `side`, walked the same way.
pub open spec fn runs_along(piece: (Corner, Corner), side: (Corner, Corner)) -> bool {
    &&& on_floor_rim(piece)
    &&& on_floor_rim(side)
    &&& {
        ||| (piece.0.y == piece.1.y && piece.0.y == side.0.y && side.0.y == side.1.y
            && within_walk(
            piece.0.x as int,
            piece.1.x as int,
            side.0.x as int,
            side.1.x as int,
        ))
        ||| (piece.0.x == piece.1.x && piece.0.x == side.0.x && side.0.x == side.1.x
            && within_walk(
            piece.0.y as int,
            piece.1.y as int,
            side.0.y as int,
            side.1.y as int,
        ))
    }
}

/// The side of the floor cap that runs along the foot of a wall.
pub open spec fn rim_side(place: Place) -> (Place, int) {
    match place {
        Place::Front { .. } => (Place::Floor { second: false }, 1int),
        Place::Left { .. } => (Place::Floor { second: false }, 2int),
        Place::Back { .. } => (Place::Floor { second: true }, 0int),
        _ => (Place::Floor { second: true }, 1int),
    }
}

/// The wall half-edge at the foot of a wall that walks a unit piece of the
/// floor rim the other way.
pub open spec fn foot_under(width: int, height: int, piece: (Corner, Corner)) -> (Place, int) {
    if piece.0.y == piece.1.y {
        let i = if piece.0.x < piece.1.x {
            piece.0.x as int
        } else {
            piece.1.x as int
        };
        if piece.0.y == 0 {
            (Place::Front { i, second: false }, 0int)
        } else {
            (Place::Back { i, second: false }, 1int)
        }
    } else {
        let j = if piece.0.y < piece.1.y {
            piece.0.y as int
        } else {
            piece.1.y as int
        };
        if piece.0.x == 0 {
            (Place::Left { j, second: false }, 1int)
        } else {
            (Place::Right { j, second: false }, 0int)
        }
    }
}

/// On the floor rim, seen from a wall: the half-edge at the foot of a wall is
/// one grid step long, and the side of the floor cap beneath it walks over it
/// the other way.
pub proof fn lemma_wall_foot_meets_floor(width: int, height: int, place: Place, slot: int)
    requires
        grid_fits(width, height),
        valid_half_edge(width, height, place, slot),
        !(place is Floor),
        on_floor_rim(half_edge(width, height, place, slot)),
    ensures
        is_unit_step(half_edge(width, height, place, slot)),
        valid_half_edge(width, height, rim_side(place).0, rim_side(place).1),
        runs_along(
            reversed(half_edge(width, height, place, slot)),
            half_edge(width, height, rim_side(place).0, rim_side(place).1),
        ),
        foot_under(width, height, reversed(half_edge(width, height, place, slot))) == (place, slot),
{
}

/// On the floor rim, seen from the floor cap: every grid step of a side of
/// the floor cap is walked the other way by a half-edge at the foot of the
/// wall above it. By [`lemma_half_edges_distinct`] it is the only one.
pub proof fn lemma_floor_side_meets_walls(
    width: int,
    height: int,
    second: bool,
    slot: int,
    piece: (Corner, Corner),
)
    requires
        grid_fits(width, height),
        0 <= slot < 3,
        on_floor_rim(half_edge(width, height, Place::Floor { second }, slot)),
        is_unit_step(piece),
        runs_along(piece, half_edge(width, height, Place::Floor { second }, slot)),
    ensures
        valid_half_edge(
            width,
            height,
            foot_under(width, height, piece).0,
            foot_under(width, height, piece).1,
        ),
        !(foot_under(width, height, piece).0 is Floor),
        half_edge(width, height, foot_under(width, height, piece).0, foot_under(width, height, piece).1)
            == reversed(piece),
        rim_side(foot_under(width, height, piece).0) == (Place::Floor { second }, slot),
{
}

/// The place of the facet at index `k` of the whole mesh.
pub open spec fn place_at(width: int, height: int, k: int) -> Place {
    let top = top_surface_count(width, height);
    let row = row_wall_count(width);
    let column = column_wall_count(height);
    if k < top {
        Place::Top { i: (k / 2) / (height - 1), j: (k / 2) % (height - 1), second: k % 2 == 1 }
    } else if k < top + row {
        Place::Front { i: (k - top) / 2, second: (k - top) % 2 == 1 }
    } else if k < top + 2 * row {
        Place::Back { i: (k - top - row) / 2, second: (k - top - row) % 2 == 1 }
    } else if k < top + 2 * row + column {
        Place::Right { j: (k - top - 2 * row) / 2, second: (k - top - 2 * row) % 2 == 1 }
    } else if k < top + 2 * row + 2 * column {
        Place::Left {
            j: (k - top - 2 * row - column) / 2,
            second: (k - top - 2 * row - column) % 2 == 1,
        }
    } else {
        Place::Floor { second: (k - top - 2 * row - 2 * column) % 2 == 1 }
    }
}

/// The index in the whole mesh of the facet at a place.
pub open spec fn index_of(width: int, height: int, place: Place) -> int {
    let top = top_surface_count(width, height);
    let row = row_wall_count(width);
    let column = column_wall_count(height);
    match place {
        Place::Top { i, j, second } => top_index(height, i, j, second),
        Place::Front { i, second } => top + 2 * i + half(second),
        Place::Back { i, second } => top + row + 2 * i + half(second),
        Place::Right { j, second } => top + 2 * row + 2 * j + half(second),
        Place::Left { j, second } => top + 2 * row + column + 2 * j + half(second),
        Place::Floor { second } => top + 2 * row + 2 * column + half(second),
    }
}

/// 0 for the first facet of a step, 1 for the second.
pub open spec fn half(second: bool) -> int {
    if second {
        1
    } else {
        0
    }
}

/// Every place has its index in the mesh, the facet there is the facet of
/// that place, and the index leads back to the place.
pub proof fn lemma_index_of_place(width: int, height: int, place: Place)
    requires
        grid_fits(width, height),
        valid_place(width, height, place),
    ensures
        0 <= index_of(width, height, place) < triangle_count(width, height),
        mesh_facets(width, height)[index_of(width, height, place)] == facet_at(
            width,
            height,
            place,
        ),
        place_at(width, height, index_of(width, height, place)) == place,
{
    lemma_cells(width, height);
    match place {
        Place::Top { i, j, second } => {
            lemma_top_surface_cell(width, height, i, j, second);
            lemma_top_surface_cell(width, height, i, j, false);
            lemma_top_surface_cell(width, height, i, j, true);
            let k = top_index(height, i, j, second);
            let cell = i * (height - 1) + j;
            assert(k / 2 == cell);
            vstd::arithmetic::div_mod::lemma_fundamental_div_mod_converse_div(
                cell,
                height - 1,
                i,
                j,
            );
            vstd::arithmetic::div_mod::lemma_fundamental_div_mod_converse_mod(
                cell,
                height - 1,
                i,
                j,
            );
        },
        _ => {},
    }
}

/// Every index of the mesh is the index of one place.
pub proof fn lemma_place_at_index(width: int, height: int, k: int)
    requires
        grid_fits(width, height),
        0 <= k < triangle_count(width, height),
    ensures
        valid_place(width, height, place_at(width, height, k)),
        index_of(width, height, place_at(width, height, k)) == k,
        mesh_facets(width, height)[k] == facet_at(width, height, place_at(width, height, k)),
{
    lemma_cells(width, height);
    let top = top_surface_count(width, height);
    if k < top {
        let cell = k / 2;
        let d = height - 1;
        lemma_fundamental_div_mod(cell, d);
        lemma_mod_bound(cell, d);
        lemma_div_pos_is_pos(cell, d);
        let i = cell / d;
        let j = cell % d;
        assert(d * i == i * d) by (nonlinear_arith);
        assert(i < width - 1) by (nonlinear_arith)
            requires
                cell == i * d + j,
                0 <= j < d,
                cell < (width - 1) * d,
        ;
        lemma_top_surface_cell(width, height, i, j, k % 2 == 1);
    }
}

/// The number of cells of the top surface is positive.
proof fn lemma_cells(width: int, height: int)
    requires
        grid_fits(width, height),
    ensures
        (width - 1) * (height - 1) >= 1,
{
    assert((width - 1) * (height - 1) >= 1) by (nonlinear_arith)
        requires
            width >= 2,
            height >= 2,
    ;
}

/// The index and slot of the twin of half-edge `slot` of the facet at index `k`.
pub open spec fn twin_index(width: int, height: int, k: int, slot: int) -> Option<(int, int)> {
    match twin(width, height, place_at(width, height, k), slot) {
        Some((other, other_slot)) => Some((index_of(width, height, other), other_slot)),
        None => None,
    }
}

/// Whether `(k, slot)` names an edge of a facet of the mesh.
pub open spec fn in_mesh(width: int, height: int, k: int, slot: int) -> bool {
    0 <= k < triangle_count(width, height) && 0 <= slot < 3
}

/// The generated mesh is closed off the floor rim: each edge of each facet
/// that does not lie on the floor rim is walked the other way by exactly one
/// edge of the mesh, an edge of another facet, and by no second edge the same way.
pub proof fn lemma_mesh_closed(width: int, height: int, k: int, slot: int)
    requires
        grid_fits(width, height),
        in_mesh(width, height, k, slot),
        !on_floor_rim(mesh_facets(width, height)[k].edge(slot)),
    ensures
        twin_index(width, height, k, slot) matches Some((m, m_slot)) && in_mesh(
            width,
            height,
            m,
            m_slot,
        ) && m != k && mesh_facets(width, height)[m].edge(m_slot) == reversed(
            mesh_facets(width, height)[k].edge(slot),
        ),
        forall|n: int, n_slot: int|
            in_mesh(width, height, n, n_slot) && #[trigger] mesh_facets(width, height)[n].edge(
                n_slot,
            ) == reversed(mesh_facets(width, height)[k].edge(slot)) ==> twin_index(
                width,
                height,
                k,
                slot,
            ) == Some((n, n_slot)),
        forall|n: int, n_slot: int|
            in_mesh(width, height, n, n_slot) && (n != k || n_slot != slot)
                ==> #[trigger] mesh_facets(width, height)[n].edge(n_slot) != mesh_facets(
                width,
                height,
            )[k].edge(slot),
{
    let mesh = mesh_facets(width, height);
    let place = place_at(width, height, k);
    lemma_place_at_index(width, height, k);
    lemma_twin(width, height, place, slot);
    let (other, other_slot) = twin(width, height, place, slot).unwrap();
    lemma_index_of_place(width, height, other);
    assert forall|n: int, n_slot: int|
        in_mesh(width, height, n, n_slot) && #[trigger] mesh[n].edge(n_slot) == reversed(
            mesh[k].edge(slot),
        ) implies twin_index(width, height, k, slot) == Some((n, n_slot)) by {
        let there = place_at(width, height, n);
        lemma_place_at_index(width, height, n);
        if there != other || n_slot != other_slot {
            lemma_half_edges_distinct(width, height, there, n_slot, other, other_slot);
        }
    }
    assert forall|n: int, n_slot: int|
        in_mesh(width, height, n, n_slot) && (n != k || n_slot != slot) implies #[trigger] mesh[n].edge(
        n_slot,
    ) != mesh[k].edge(slot) by {
        let there = place_at(width, height, n);
        lemma_place_at_index(width, height, n);
        lemma_half_edges_distinct(width, height, there, n_slot, place, slot);
    }
}

/// The generated mesh is closed along the floor rim too, though not edge to
/// edge: an edge at the foot of a wall is one grid step long, and one side of
/// the floor cap (one of the last two facets) walks over it the other way.
pub proof fn lemma_mesh_wall_foot(width: int, height: int, k: int, slot: int)
    requires
        grid_fits(width, height),
        in_mesh(width, height, k, slot),
        k < triangle_count(width, height) - 2,
        on_floor_rim(mesh_facets(width, height)[k].edge(slot)),
    ensures
        is_unit_step(mesh_facets(width, height)[k].edge(slot)),
        exists|m: int, m_slot: int|
            triangle_count(width, height) - 2 <= m && in_mesh(width, height, m, m_slot)
                && runs_along(
                reversed(mesh_facets(width, height)[k].edge(slot)),
                #[trigger] mesh_facets(width, height)[m].edge(m_slot),
            ),
{
    let mesh = mesh_facets(width, height);
    let place = place_at(width, height, k);
    lemma_place_at_index(width, height, k);
    lemma_wall_foot_meets_floor(width, height, place, slot);
    let (side, side_slot) = rim_side(place);
    lemma_index_of_place(width, height, side);
    let m = index_of(width, height, side);
    assert(runs_along(reversed(mesh[k].edge(slot)), mesh[m].edge(side_slot)));
}

/// Each grid step of a side of the floor cap is walked the other way by
/// exactly one edge of the mesh, an edge at the foot of a wall.
pub proof fn lemma_mesh_floor_side(
    width: int,
    height: int,
    k: int,
    slot: int,
    piece: (Corner, Corner),
)
    requires
        grid_fits(width, height),
        in_mesh(width, height, k, slot),
        triangle_count(width, height) - 2 <= k,
        on_floor_rim(mesh_facets(width, height)[k].edge(slot)),
        is_unit_step(piece),
        runs_along(piece, mesh_facets(width, height)[k].edge(slot)),
    ensures
        ({
            let n = index_of(width, height, foot_under(width, height, piece).0);
            let n_slot = foot_under(width, height, piece).1;
            &&& in_mesh(width, height, n, n_slot)
            &&& n < triangle_count(width, height) - 2
            &&& mesh_facets(width, height)[n].edge(n_slot) == reversed(piece)
        }),
        forall|n: int, n_slot: int|
            in_mesh(width, height, n, n_slot) && #[trigger] mesh_facets(width, height)[n].edge(
                n_slot,
            ) == reversed(piece) ==> n == index_of(width, height, foot_under(width, height, piece).0)
                && n_slot == foot_under(width, height, piece).1,
{
    let mesh = mesh_facets(width, height);
    lemma_place_at_index(width, height, k);
    let second = place_at(width, height, k)->Floor_second;
    assert(place_at(width, height, k) == Place::Floor { second });
    lemma_floor_side_meets_walls(width, height, second, slot, piece);
    let (foot, foot_slot) = foot_under(width, height, piece);
    lemma_index_of_place(width, height, foot);
    assert forall|n: int, n_slot: int|
        in_mesh(width, height, n, n_slot) && #[trigger] mesh[n].edge(n_slot) == reversed(
            piece,
        ) implies n == index_of(width, height, foot) && n_slot == foot_slot by {
        let there = place_at(width, height, n);
        lemma_place_at_index(width, height, n);
        if there != foot || n_slot != foot_slot {
            lemma_half_edges_distinct(width, height, there, n_slot, foot, foot_slot);
        }
    }
}

/// Every corner of every facet stands on a position of the grid.
pub proof fn lemma_corners_on_grid(width: int, height: int, k: int)
    requires
        grid_fits(width, height),
        0 <= k < triangle_count(width, height),
    ensures
        on_grid(width, height, mesh_facets(width, height)[k].a),
        on_grid(width, height, mesh_facets(width, height)[k].b),
        on_grid(width, height, mesh_facets(width, height)[k].c),
        !mesh_facets(width, height)[k].flip_normal,
{
    lemma_place_at_index(width, height, k);
}

/// Whether a corner stands on a position of the grid.
pub open spec fn on_grid(width: int, height: int, corner: Corner) -> bool {
    corner.x < width && corner.y < height
}

} // verus!
