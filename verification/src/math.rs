//! Geometry primitives.
//!
//! All spatial quantities in this crate are fixed-point numbers: an
//! `i64` counts units of `1/FIXED_ONE`, so `FIXED_ONE` stands for the
//! length of one voxel cell. A rotation angle is never stored as such:
//! a block's y-axis sub-rotation is one of sixteen discrete segments of
//! 1/16 turn, and the sine and cosine of each segment are fixed-point
//! constants (see `seg_sin`).

use vstd::prelude::*;

verus! {

/// One whole voxel cell, in fixed-point units.
pub const FIXED_ONE: i64 = 65536;

/// Half a voxel cell, in fixed-point units.
pub const FIXED_HALF: i64 = 32768;

/// Largest magnitude, in fixed-point units, that a coordinate handed to
/// the rotation routines may have. Intermediate products with the trig
/// constants then stay far inside `i64`.
pub const MAX_COORD: i64 = 1099511627776;

/// A triple, used for world positions (`Vec3<i32>`) and for fixed-point
/// geometry (`Vec3<i64>`).
#[derive(Debug, Clone, Copy, PartialEq, Eq, Hash, Structural)]
pub struct Vec3<T>(pub T, pub T, pub T);

/// A pair, used for fixed-point texture coordinates.
#[derive(Debug, Clone, Copy, PartialEq, Eq, Structural)]
pub struct Vec2<T>(pub T, pub T);

impl View for Vec3<i64> {
    type V = Vec3<int>;

    open spec fn view(&self) -> Vec3<int> {
        Vec3(self.0 as int, self.1 as int, self.2 as int)
    }
}

impl View for Vec2<i64> {
    type V = Vec2<int>;

    open spec fn view(&self) -> Vec2<int> {
        Vec2(self.0 as int, self.1 as int)
    }
}

/// Division that truncates toward zero, as `/` on `i64` does.
pub open spec fn tdiv(a: int, b: int) -> int {
    if a >= 0 {
        a / b
    } else {
        -((-a) / b)
    }
}

/// Every component of `p` has magnitude at most `b`.
pub open spec fn bounded3(p: Vec3<int>, b: int) -> bool {
    &&& -b <= p.0 <= b
    &&& -b <= p.1 <= b
    &&& -b <= p.2 <= b
}

/// Truncating division by `FIXED_ONE` keeps a bound that the dividend
/// had in multiples of `FIXED_ONE`.
pub proof fn lemma_tdiv_bound(a: int, m: int)
    requires
        0 <= m,
        -m * 65536 <= a <= m * 65536,
    ensures
        -m <= tdiv(a, 65536) <= m,
{
    if a >= 0 {
        assert(a / 65536 <= m) by (nonlinear_arith)
            requires 0 <= a <= m * 65536;
        assert(a / 65536 >= 0) by (nonlinear_arith)
            requires a >= 0;
    } else {
        assert((-a) / 65536 <= m) by (nonlinear_arith)
            requires 0 <= -a <= m * 65536;
        assert((-a) / 65536 >= 0) by (nonlinear_arith)
            requires -a >= 0;
    }
}

/// Bound on a product of two bounded factors.
pub proof fn lemma_mul_bound(x: int, c: int, bx: int, bc: int)
    requires
        -bx <= x <= bx,
        -bc <= c <= bc,
        0 <= bx,
        0 <= bc,
    ensures
        -(bx * bc) <= x * c <= bx * bc,
{
    assert(-(bx * bc) <= x * c <= bx * bc) by (nonlinear_arith)
        requires -bx <= x <= bx, -bc <= c <= bc, 0 <= bx, 0 <= bc;
}

} // verus!
