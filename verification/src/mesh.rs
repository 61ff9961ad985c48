//! The facets of the solid, section by section, and the generator that emits them.

use vstd::prelude::*;
use vstd::arithmetic::div_mod::{
    lemma_fundamental_div_mod_converse_div,
    lemma_fundamental_div_mod_converse_mod,
};
use crate::facet::{create_triangle, facet, floor, surface, Corner, Facet};
use crate::planner::{
    calculate_triangle_count,
    column_wall_count,
    row_wall_count,
    top_surface_count,
    triangle_count,
    valid_dimensions,
};

verus! {

/// One of the two facets over grid cell `(i, j)` of the top surface. The cell
/// is cut along the diagonal from `(i + 1, j)` to `(i, j + 1)`.
pub open spec fn top_facet(i: int, j: int, second: bool) -> Facet {
    if !second {
        facet(surface(i, j), surface(i + 1, j), surface(i, j + 1))
    } else {
        facet(surface(i + 1, j), surface(i + 1, j + 1), surface(i, j + 1))
    }
}

/// One of the two facets of the front wall (under the row `y == 0`) between columns `i` and `i + 1`.
pub open spec fn front_facet(i: int, second: bool) -> Facet {
    if !second {
        facet(floor(i, 0), floor(i + 1, 0), surface(i, 0))
    } else {
        facet(surface(i + 1, 0), surface(i, 0), floor(i + 1, 0))
    }
}

/// One of the two facets of the back wall (under the row `y == height - 1`) between columns `i` and `i + 1`.
pub open spec fn back_facet(height: int, i: int, second: bool) -> Facet {
    let y = height - 1;
    if !second {
        facet(surface(i, y), floor(i + 1, y), floor(i, y))
    } else {
        facet(floor(i + 1, y), surface(i, y), surface(i + 1, y))
    }
}

/// One of the two facets of the right wall (under the column `x == width - 1`) between rows `j` and `j + 1`.
pub open spec fn right_facet(width: int, j: int, second: bool) -> Facet {
    let x = width - 1;
    if !second {
        facet(floor(x, j), floor(x, j + 1), surface(x, j))
    } else {
        facet(surface(x, j + 1), surface(x, j), floor(x, j + 1))
    }
}

/// One of the two facets of the left wall (under the column `x == 0`) between rows `j` and `j + 1`.
pub open spec fn left_facet(j: int, second: bool) -> Facet {
    if !second {
        facet(surface(0, j), floor(0, j + 1), floor(0, j))
    } else {
        facet(floor(0, j + 1), surface(0, j), surface(0, j + 1))
    }
}

/// One of the two facets of the floor cap, which spans the whole floor rectangle.
pub open spec fn floor_facet(width: int, height: int, second: bool) -> Facet {
    if !second {
        facet(floor(0, height - 1), floor(width - 1, 0), floor(0, 0))
    } else {
        facet(floor(0, height - 1), floor(width - 1, height - 1), floor(width - 1, 0))
    }
}

/// The top surface: cells column by column (`i` outer, `j` inner), two facets each.
pub open spec fn top_surface(width: int, height: int) -> Seq<Facet> {
    Seq::new(top_surface_count(width, height) as nat, |k: int| top_surface_at(height, k))
}

/// The facet at place `k` of the top surface: cell `k / 2`, counted down the
/// columns, and within the cell the first facet before the second.
pub open spec fn top_surface_at(height: int, k: int) -> Facet {
    top_facet((k / 2) / (height - 1), (k / 2) % (height - 1), k % 2 == 1)
}

/// The front wall, column step by column step.
pub open spec fn front_wall(width: int) -> Seq<Facet> {
    Seq::new(row_wall_count(width) as nat, |k: int| front_facet(k / 2, k % 2 == 1))
}

/// The back wall, column step by column step.
pub open spec fn back_wall(width: int, height: int) -> Seq<Facet> {
    Seq::new(row_wall_count(width) as nat, |k: int| back_facet(height, k / 2, k % 2 == 1))
}

/// The right wall, row step by row step.
pub open spec fn right_wall(width: int, height: int) -> Seq<Facet> {
    Seq::new(column_wall_count(height) as nat, |k: int| right_facet(width, k / 2, k % 2 == 1))
}

/// The left wall, row step by row step.
pub open spec fn left_wall(height: int) -> Seq<Facet> {
    Seq::new(column_wall_count(height) as nat, |k: int| left_facet(k / 2, k % 2 == 1))
}

/// The floor cap.
pub open spec fn floor_cap(width: int, height: int) -> Seq<Facet> {
    seq![floor_facet(width, height, false), floor_facet(width, height, true)]
}

/// All facets of the solid in the order they are emitted: top surface, front
/// wall, back wall, right wall, left wall, floor cap.
pub open spec fn mesh_facets(width: int, height: int) -> Seq<Facet> {
    top_surface(width, height) + front_wall(width) + back_wall(width, height) + right_wall(
        width,
        height,
    ) + left_wall(height) + floor_cap(width, height)
}

/// The sections add up to the planned count.
pub proof fn lemma_mesh_len(width: int, height: int)
    requires
        valid_dimensions(width, height),
    ensures
        mesh_facets(width, height).len() == triangle_count(width, height),
{
    assert((width - 1) * (height - 1) >= 1) by (nonlinear_arith)
        requires
            width >= 2,
            height >= 2,
    ;
}

/// Where cell `(i, j)` of the top surface stands in its section.
pub proof fn lemma_top_surface_cell(width: int, height: int, i: int, j: int, second: bool)
    requires
        valid_dimensions(width, height),
        0 <= i < width - 1,
        0 <= j < height - 1,
    ensures
        0 <= top_index(height, i, j, second) < top_surface_count(width, height),
        top_surface_at(height, top_index(height, i, j, second)) == top_facet(i, j, second),
        top_surface(width, height)[top_index(height, i, j, second)] == top_facet(i, j, second),
{
    let cell = i * (height - 1) + j;
    let k = top_index(height, i, j, second);
    assert(0 <= i * (height - 1) && cell + 1 <= (width - 1) * (height - 1)) by (nonlinear_arith)
        requires
            0 <= i < width - 1,
            0 <= j < height - 1,
            cell == i * (height - 1) + j,
    ;
    assert(k / 2 == cell);
    lemma_fundamental_div_mod_converse_div(cell, height - 1, i, j);
    lemma_fundamental_div_mod_converse_mod(cell, height - 1, i, j);
}

/// Index, within the top surface, of a facet over cell `(i, j)`.
pub open spec fn top_index(height: int, i: int, j: int, second: bool) -> int {
    2 * (i * (height - 1) + j) + if second {
        1int
    } else {
        0int
    }
}

/// Appends the top surface to `mesh`.
pub fn emit_top_surface(mesh: &mut Vec<Facet>, width: u32, height: u32)
    requires
        valid_dimensions(width as int, height as int),
    ensures
        final(mesh)@ == old(mesh)@ + top_surface(width as int, height as int),
{
    let ghost base = mesh@;
    let ghost h = height as int;
    let mut i: u32 = 0;
    while i < width - 1
        invariant
            valid_dimensions(width as int, height as int),
            h == height,
            i <= width - 1,
            mesh@.len() == base.len() + 2 * (i * (h - 1)),
            forall|k: int| 0 <= k < base.len() ==> mesh@[k] == base[k],
            forall|k: int|
                base.len() <= k < mesh@.len() ==> mesh@[k] == top_surface_at(h, k - base.len()),
        decreases width - 1 - i,
    {
        let mut j: u32 = 0;
        while j < height - 1
            invariant
                valid_dimensions(width as int, height as int),
                h == height,
                i < width - 1,
                j <= height - 1,
                mesh@.len() == base.len() + 2 * (i * (h - 1) + j),
                forall|k: int| 0 <= k < base.len() ==> mesh@[k] == base[k],
                forall|k: int|
                    base.len() <= k < mesh@.len() ==> mesh@[k] == top_surface_at(
                        h,
                        k - base.len(),
                    ),
            decreases height - 1 - j,
        {
            proof {
                lemma_top_surface_cell(width as int, h, i as int, j as int, false);
                lemma_top_surface_cell(width as int, h, i as int, j as int, true);
            }
            let near = Corner::surface(i, j);
            let right = Corner::surface(i + 1, j);
            let far = Corner::surface(i, j + 1);
            let across = Corner::surface(i + 1, j + 1);
            mesh.push(create_triangle(near, right, far, false));
            mesh.push(create_triangle(right, across, far, false));
            j += 1;
        }
        assert(2 * (i * (h - 1) + (h - 1)) == 2 * ((i + 1) * (h - 1))) by (nonlinear_arith);
        i += 1;
    }
    assert(mesh@ =~= base + top_surface(width as int, h));
}

/// Appends the front wall to `mesh`.
pub fn emit_front_wall(mesh: &mut Vec<Facet>, width: u32)
    requires
        width >= 2,
    ensures
        final(mesh)@ == old(mesh)@ + front_wall(width as int),
{
    let ghost base = mesh@;
    let mut i: u32 = 0;
    while i < width - 1
        invariant
            width >= 2,
            i <= width - 1,
            mesh@.len() == base.len() + 2 * i,
            forall|k: int| 0 <= k < base.len() ==> mesh@[k] == base[k],
            forall|k: int|
                base.len() <= k < mesh@.len() ==> mesh@[k] == front_facet(
                    (k - base.len()) / 2,
                    (k - base.len()) % 2 == 1,
                ),
        decreases width - 1 - i,
    {
        let low_near = Corner::floor(i, 0);
        let low_next = Corner::floor(i + 1, 0);
        let high_near = Corner::surface(i, 0);
        let high_next = Corner::surface(i + 1, 0);
        mesh.push(create_triangle(low_near, low_next, high_near, false));
        mesh.push(create_triangle(high_next, high_near, low_next, false));
        i += 1;
    }
    assert(mesh@ =~= base + front_wall(width as int));
}

/// Appends the back wall to `mesh`.
pub fn emit_back_wall(mesh: &mut Vec<Facet>, width: u32, height: u32)
    requires
        valid_dimensions(width as int, height as int),
    ensures
        final(mesh)@ == old(mesh)@ + back_wall(width as int, height as int),
{
    let ghost base = mesh@;
    let y: u32 = height - 1;
    let mut i: u32 = 0;
    while i < width - 1
        invariant
            valid_dimensions(width as int, height as int),
            y == height - 1,
            i <= width - 1,
            mesh@.len() == base.len() + 2 * i,
            forall|k: int| 0 <= k < base.len() ==> mesh@[k] == base[k],
            forall|k: int|
                base.len() <= k < mesh@.len() ==> mesh@[k] == back_facet(
                    height as int,
                    (k - base.len()) / 2,
                    (k - base.len()) % 2 == 1,
                ),
        decreases width - 1 - i,
    {
        let low_near = Corner::floor(i, y);
        let low_next = Corner::floor(i + 1, y);
        let high_near = Corner::surface(i, y);
        let high_next = Corner::surface(i + 1, y);
        mesh.push(create_triangle(high_near, low_next, low_near, false));
        mesh.push(create_triangle(low_next, high_near, high_next, false));
        i += 1;
    }
    assert(mesh@ =~= base + back_wall(width as int, height as int));
}

/// Appends the right wall to `mesh`.
pub fn emit_right_wall(mesh: &mut Vec<Facet>, width: u32, height: u32)
    requires
        valid_dimensions(width as int, height as int),
    ensures
        final(mesh)@ == old(mesh)@ + right_wall(width as int, height as int),
{
    let ghost base = mesh@;
    let x: u32 = width - 1;
    let mut j: u32 = 0;
    while j < height - 1
        invariant
            valid_dimensions(width as int, height as int),
            x == width - 1,
            j <= height - 1,
            mesh@.len() == base.len() + 2 * j,
            forall|k: int| 0 <= k < base.len() ==> mesh@[k] == base[k],
            forall|k: int|
                base.len() <= k < mesh@.len() ==> mesh@[k] == right_facet(
                    width as int,
                    (k - base.len()) / 2,
                    (k - base.len()) % 2 == 1,
                ),
        decreases height - 1 - j,
    {
        let low_near = Corner::floor(x, j);
        let low_next = Corner::floor(x, j + 1);
        let high_near = Corner::surface(x, j);
        let high_next = Corner::surface(x, j + 1);
        mesh.push(create_triangle(low_near, low_next, high_near, false));
        mesh.push(create_triangle(high_next, high_near, low_next, false));
        j += 1;
    }
    assert(mesh@ =~= base + right_wall(width as int, height as int));
}

/// Appends the left wall to `mesh`.
pub fn emit_left_wall(mesh: &mut Vec<Facet>, height: u32)
    requires
        height >= 2,
    ensures
        final(mesh)@ == old(mesh)@ + left_wall(height as int),
{
    let ghost base = mesh@;
    let mut j: u32 = 0;
    while j < height - 1
        invariant
            height >= 2,
            j <= height - 1,
            mesh@.len() == base.len() + 2 * j,
            forall|k: int| 0 <= k < base.len() ==> mesh@[k] == base[k],
            forall|k: int|
                base.len() <= k < mesh@.len() ==> mesh@[k] == left_facet(
                    (k - base.len()) / 2,
                    (k - base.len()) % 2 == 1,
                ),
        decreases height - 1 - j,
    {
        let low_near = Corner::floor(0, j);
        let low_next = Corner::floor(0, j + 1);
        let high_near = Corner::surface(0, j);
        let high_next = Corner::surface(0, j + 1);
        mesh.push(create_triangle(high_near, low_next, low_near, false));
        mesh.push(create_triangle(low_next, high_near, high_next, false));
        j += 1;
    }
    assert(mesh@ =~= base + left_wall(height as int));
}

/// Appends the floor cap to `mesh`.
pub fn emit_floor_cap(mesh: &mut Vec<Facet>, width: u32, height: u32)
    requires
        valid_dimensions(width as int, height as int),
    ensures
        final(mesh)@ == old(mesh)@ + floor_cap(width as int, height as int),
{
    let ghost base = mesh@;
    let origin = Corner::floor(0, 0);
    let along_x = Corner::floor(width - 1, 0);
    let along_y = Corner::floor(0, height - 1);
    let opposite = Corner::floor(width - 1, height - 1);
    mesh.push(create_triangle(along_y, along_x, origin, false));
    mesh.push(create_triangle(along_y, opposite, along_x, false));
    assert(mesh@ =~= base + floor_cap(width as int, height as int));
}

/// Generates the whole solid over a `width` by `height` grid: exactly the
/// planned number of facets, each at its planned place.
pub fn generate_mesh(width: u32, height: u32) -> (mesh: Vec<Facet>)
    requires
        valid_dimensions(width as int, height as int),
        triangle_count(width as int, height as int) <= usize::MAX,
    ensures
        mesh@ == mesh_facets(width as int, height as int),
        mesh@.len() == triangle_count(width as int, height as int),
{
    let mut mesh: Vec<Facet> = Vec::with_capacity(calculate_triangle_count(width, height));
    emit_top_surface(&mut mesh, width, height);
    emit_front_wall(&mut mesh, width);
    emit_back_wall(&mut mesh, width, height);
    emit_right_wall(&mut mesh, width, height);
    emit_left_wall(&mut mesh, height);
    emit_floor_cap(&mut mesh, width, height);
    proof {
        lemma_mesh_len(width as int, height as int);
        assert(mesh@ =~= mesh_facets(width as int, height as int));
    }
    mesh
}

} // verus!
