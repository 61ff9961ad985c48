//! Corners and facets of the solid.

use vstd::prelude::*;

verus! {

/// The two levels a corner can sit on.
#[derive(Clone, Copy, Debug, PartialEq, Eq, Hash)]
pub enum Level {
    /// The flat floor plane under the whole grid.
    Floor,
    /// The sampled surface: the height of the grid sample at the corner's own position.
    Surface,
}

/// A point of the solid: a grid position and the level it sits on.
#[derive(Clone, Copy, Debug, PartialEq, Eq, Hash)]
pub struct Corner {
    pub x: u32,
    pub y: u32,
    pub level: Level,
}

/// A triangle of the solid. The order `a`, `b`, `c` is its winding: seen from
/// the side its normal points to, the corners run counter-clockwise, unless
/// `flip_normal` asks for the opposite normal.
#[derive(Clone, Copy, Debug, PartialEq, Eq, Hash)]
pub struct Facet {
    pub a: Corner,
    pub b: Corner,
    pub c: Corner,
    pub flip_normal: bool,
}

/// The corner on the sampled surface above grid position `(x, y)`.
pub open spec fn surface(x: int, y: int) -> Corner {
    Corner { x: x as u32, y: y as u32, level: Level::Surface }
}

/// The corner on the floor plane below grid position `(x, y)`.
pub open spec fn floor(x: int, y: int) -> Corner {
    Corner { x: x as u32, y: y as u32, level: Level::Floor }
}

/// The facet with corners `a`, `b`, `c` in this order and the normal that their winding gives.
pub open spec fn facet(a: Corner, b: Corner, c: Corner) -> Facet {
    Facet { a, b, c, flip_normal: false }
}

impl Corner {
    /// A corner on the sampled surface.
    pub fn surface(x: u32, y: u32) -> (corner: Corner)
        ensures
            corner == self::surface(x as int, y as int),
    {
        Corner { x, y, level: Level::Surface }
    }

    /// A corner on the floor plane.
    pub fn floor(x: u32, y: u32) -> (corner: Corner)
        ensures
            corner == self::floor(x as int, y as int),
    {
        Corner { x, y, level: Level::Floor }
    }
}

impl Facet {
    /// The directed edge in slot 0, 1 or 2: from `a` to `b`, from `b` to `c`, from `c` to `a`.
    pub open spec fn edge(self, slot: int) -> (Corner, Corner) {
        if slot == 0 {
            (self.a, self.b)
        } else if slot == 1 {
            (self.b, self.c)
        } else {
            (self.c, self.a)
        }
    }
}

/// The same edge walked the other way.
pub open spec fn reversed(edge: (Corner, Corner)) -> (Corner, Corner) {
    (edge.1, edge.0)
}

/// Builds the facet over three corners, keeping their order as its winding.
pub fn create_triangle(a: Corner, b: Corner, c: Corner, flip_normal: bool) -> (triangle: Facet)
    ensures
        triangle == (Facet { a, b, c, flip_normal }),
{
    Facet { a, b, c, flip_normal }
}

} // verus!
