//! Exact facet counts of the relief solid, by section.

use vstd::prelude::*;

verus! {

/// Facets of the top surface: two per grid cell.
pub open spec fn top_surface_count(width: int, height: int) -> int {
    (width - 1) * (height - 1) * 2
}

/// Facets of one wall that runs along the x axis (front or back): two per column step.
pub open spec fn row_wall_count(width: int) -> int {
    (width - 1) * 2
}

/// Facets of one wall that runs along the y axis (right or left): two per row step.
pub open spec fn column_wall_count(height: int) -> int {
    (height - 1) * 2
}

/// Facets of the floor cap.
pub open spec fn floor_cap_count() -> int {
    2
}

/// Total number of facets of the solid over a `width` by `height` grid.
pub open spec fn triangle_count(width: int, height: int) -> int {
    top_surface_count(width, height) + row_wall_count(width) * 2 + column_wall_count(height) * 2
        + floor_cap_count()
}

/// Whether a grid of this size can carry a solid: at least two samples each way.
pub open spec fn valid_dimensions(width: int, height: int) -> bool {
    width >= 2 && height >= 2
}

/// Number of facets of the solid, for sizing the output buffer.
pub fn calculate_triangle_count(width: u32, height: u32) -> (count: usize)
    requires
        valid_dimensions(width as int, height as int),
        triangle_count(width as int, height as int) <= usize::MAX,
    ensures
        count == triangle_count(width as int, height as int),
{
    let w: u128 = (width - 1) as u128;
    let h: u128 = (height - 1) as u128;
    assert(w * h <= 0xffff_ffff * 0xffff_ffff) by (nonlinear_arith)
        requires
            0 <= w <= 0xffff_ffff,
            0 <= h <= 0xffff_ffff,
    ;
    let mut count: u128 = w * h * 2;
    count += w * 2 * 2;
    count += h * 2 * 2;
    count += 2;
    count as usize
}

/// Like [`calculate_triangle_count`], but answers `None` where the grid is
/// too small or the count does not fit the machine's index type.
pub fn checked_triangle_count(width: u32, height: u32) -> (count: Option<usize>)
    ensures
        count.is_some() <==> valid_dimensions(width as int, height as int) && triangle_count(
            width as int,
            height as int,
        ) <= usize::MAX,
        count matches Some(n) ==> n == triangle_count(width as int, height as int),
{
    if width < 2 || height < 2 {
        return None;
    }
    let w: u128 = (width - 1) as u128;
    let h: u128 = (height - 1) as u128;
    assert(w * h <= 0xffff_ffff * 0xffff_ffff) by (nonlinear_arith)
        requires
            0 <= w <= 0xffff_ffff,
            0 <= h <= 0xffff_ffff,
    ;
    let total: u128 = w * h * 2 + w * 2 * 2 + h * 2 * 2 + 2;
    if total > usize::MAX as u128 {
        None
    } else {
        Some(calculate_triangle_count(width, height))
    }
}

} // verus!
