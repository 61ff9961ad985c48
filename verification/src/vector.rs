//! Vectors of three whole numbers, and the products that give a facet its normal.

use vstd::prelude::*;

verus! {

/// A vector in space with whole-number components.
pub struct Vector {
    pub x: int,
    pub y: int,
    pub z: int,
}

/// The difference `a - b`, component by component.
pub open spec fn subtract(a: Vector, b: Vector) -> Vector {
    Vector { x: a.x - b.x, y: a.y - b.y, z: a.z - b.z }
}

/// The vector `a` scaled by `k`.
pub open spec fn multiply(a: Vector, k: int) -> Vector {
    Vector { x: a.x * k, y: a.y * k, z: a.z * k }
}

/// The cross product `a x b`: it stands at right angles to both, on the side
/// from which the turn from `a` to `b` is counter-clockwise.
pub open spec fn cartesian_product(a: Vector, b: Vector) -> Vector {
    Vector { x: a.y * b.z - a.z * b.y, y: a.z * b.x - a.x * b.z, z: a.x * b.y - a.y * b.x }
}

/// The dot product of `a` and `b`.
pub open spec fn dot(a: Vector, b: Vector) -> int {
    a.x * b.x + a.y * b.y + a.z * b.z
}

/// Swapping the operands of the cross product negates it.
pub proof fn lemma_cross_antisymmetric(a: Vector, b: Vector)
    ensures
        cartesian_product(a, b) == multiply(cartesian_product(b, a), -1),
{
    assert(a.y * b.z == b.z * a.y && a.z * b.y == b.y * a.z && a.z * b.x == b.x * a.z && a.x
        * b.z == b.z * a.x && a.x * b.y == b.y * a.x && a.y * b.x == b.x * a.y)
        by (nonlinear_arith);
}

/// The cross product stands at right angles to both of its operands.
pub proof fn lemma_cross_orthogonal(a: Vector, b: Vector)
    ensures
        dot(cartesian_product(a, b), a) == 0,
        dot(cartesian_product(a, b), b) == 0,
{
    assert((a.y * b.z - a.z * b.y) * a.x + (a.z * b.x - a.x * b.z) * a.y + (a.x * b.y - a.y * b.x)
        * a.z == 0) by (nonlinear_arith);
    assert((a.y * b.z - a.z * b.y) * b.x + (a.z * b.x - a.x * b.z) * b.y + (a.x * b.y - a.y * b.x)
        * b.z == 0) by (nonlinear_arith);
}

} // verus!
