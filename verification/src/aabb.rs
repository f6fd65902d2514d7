//! Axis-aligned bounding boxes.
//!
//! An `AABB` holds six fixed-point bounds. `BlockRotation::rotate_aabb`
//! carries a box into a block's orientation and rebuilds the bounds
//! from the rotated extremes; when the orientation keeps the y axis and
//! a y-axis sub-rotation is asked for, the four bottom and four top
//! corners are tracked separately, because a rotation that is not a
//! quarter turn does not carry box corners onto box corners.

use vstd::prelude::*;

use crate::math::{bounded3, Vec3, FIXED_ONE, MAX_COORD};
use crate::rotation::{spec_rotate_node, y_count_of, BlockRotation};

verus! {

/// An axis-aligned box: six fixed-point bounds.
#[derive(Debug, Clone, Copy, PartialEq, Eq, Structural)]
pub struct AABB {
    /// Lower x bound.
    pub min_x: i64,
    /// Lower y bound.
    pub min_y: i64,
    /// Lower z bound.
    pub min_z: i64,
    /// Upper x bound.
    pub max_x: i64,
    /// Upper y bound.
    pub max_y: i64,
    /// Upper z bound.
    pub max_z: i64,
}

impl View for AABB {
    type V = (Vec3<int>, Vec3<int>);

    /// A box is viewed as its lower and upper corner.
    open spec fn view(&self) -> (Vec3<int>, Vec3<int>) {
        (
            Vec3(self.min_x as int, self.min_y as int, self.min_z as int),
            Vec3(self.max_x as int, self.max_y as int, self.max_z as int),
        )
    }
}

/// The smaller of two values.
pub open spec fn min2(a: int, b: int) -> int {
    if a <= b {
        a
    } else {
        b
    }
}

/// The larger of two values.
pub open spec fn max2(a: int, b: int) -> int {
    if a >= b {
        a
    } else {
        b
    }
}

/// Every bound of the box has magnitude at most `b`.
pub open spec fn aabb_bounded(a: (Vec3<int>, Vec3<int>), b: int) -> bool {
    bounded3(a.0, b) && bounded3(a.1, b)
}

/// The box is a valid volume: no lower bound exceeds its upper bound.
pub open spec fn aabb_valid(a: (Vec3<int>, Vec3<int>)) -> bool {
    a.0.0 <= a.1.0 && a.0.1 <= a.1.1 && a.0.2 <= a.1.2
}

/// The volume of the box, in cubed fixed-point units: one voxel cell
/// has volume `FIXED_ONE` cubed.
pub open spec fn aabb_volume(a: (Vec3<int>, Vec3<int>)) -> int {
    (a.1.0 - a.0.0) * (a.1.1 - a.0.1) * (a.1.2 - a.0.2)
}

/// The smaller of two fixed-point values.
fn min_i64(a: i64, b: i64) -> (r: i64)
    ensures
        r == min2(a as int, b as int),
{
    if a <= b {
        a
    } else {
        b
    }
}

/// The larger of two fixed-point values.
fn max_i64(a: i64, b: i64) -> (r: i64)
    ensures
        r == max2(a as int, b as int),
{
    if a >= b {
        a
    } else {
        b
    }
}

/// Where a corner of the box lands under `rotate_node` without the
/// y-axis spin.
pub open spec fn spec_corner(
    r: BlockRotation,
    x: int,
    y: int,
    z: int,
    translate: bool,
) -> Vec3<int> {
    spec_rotate_node(r, Vec3(x, y, z), false, translate)
}

/// Where a corner of the box lands under `rotate_node` with the y-axis
/// spin and the unit translation, as the bottom- and top-corner probes
/// of `rotate_aabb` send it.
pub open spec fn spec_spun_corner(r: BlockRotation, x: int, y: int, z: int) -> Vec3<int> {
    spec_rotate_node(r, Vec3(x, y, z), true, true)
}

/// Whether `rotate_aabb` tracks the four bottom and four top corners:
/// only when a y spin is asked for and the orientation keeps the y axis.
pub open spec fn spec_tracks_corners(r: BlockRotation, y_rotate: bool) -> bool {
    y_rotate && (r is PY || r is NY)
}

/// What `rotate_aabb` returns. The lower and upper corners are rotated
/// without the y spin and recombined into bounds; the x and z bounds
/// are overridden by the extremes of the four spun bottom corners and
/// the four spun top corners when the corner tracking is on.
pub open spec fn spec_rotate_aabb(
    r: BlockRotation,
    a: (Vec3<int>, Vec3<int>),
    y_rotate: bool,
    translate: bool,
) -> (Vec3<int>, Vec3<int>) {
    let rmin = spec_corner(r, a.0.0, a.0.1, a.0.2, translate);
    let rmax = spec_corner(r, a.1.0, a.1.1, a.1.2, translate);
    if spec_tracks_corners(r, y_rotate) {
        let b1 = spec_spun_corner(r, a.0.0, a.0.1, a.0.2);
        let b2 = spec_spun_corner(r, a.0.0, a.0.1, a.1.2);
        let b3 = spec_spun_corner(r, a.1.0, a.0.1, a.0.2);
        let b4 = spec_spun_corner(r, a.1.0, a.0.1, a.1.2);
        let t1 = spec_spun_corner(r, a.0.0, a.1.1, a.0.2);
        let t2 = spec_spun_corner(r, a.0.0, a.1.1, a.1.2);
        let t3 = spec_spun_corner(r, a.1.0, a.1.1, a.0.2);
        let t4 = spec_spun_corner(r, a.1.0, a.1.1, a.1.2);
        (
            Vec3(
                min2(min2(min2(b1.0, b2.0), b3.0), b4.0),
                min2(rmin.1, rmax.1),
                min2(min2(min2(b1.2, b2.2), b3.2), b4.2),
            ),
            Vec3(
                max2(max2(max2(t1.0, t2.0), t3.0), t4.0),
                max2(rmax.1, rmin.1),
                max2(max2(max2(t1.2, t2.2), t3.2), t4.2),
            ),
        )
    } else {
        (
            Vec3(min2(rmin.0, rmax.0), min2(rmin.1, rmax.1), min2(rmin.2, rmax.2)),
            Vec3(max2(rmin.0, rmax.0), max2(rmax.1, rmin.1), max2(rmin.2, rmax.2)),
        )
    }
}

impl AABB {
    /// Start building a box; the default is the unit voxel cell.
    pub fn new() -> (r: AABBBuilder)
        ensures
            r == (AABBBuilder {
                min_x: 0i64,
                min_y: 0i64,
                min_z: 0i64,
                max_x: FIXED_ONE as i64,
                max_y: FIXED_ONE as i64,
                max_z: FIXED_ONE as i64,
            }),
    {
        AABBBuilder {
            min_x: 0,
            min_y: 0,
            min_z: 0,
            max_x: FIXED_ONE,
            max_y: FIXED_ONE,
            max_z: FIXED_ONE,
        }
    }
}

/// A chainable configuration for an `AABB`; `build` materializes it.
#[derive(Debug, Clone, Copy, PartialEq, Eq, Structural)]
pub struct AABBBuilder {
    /// Lower x bound to build with.
    pub min_x: i64,
    /// Lower y bound to build with.
    pub min_y: i64,
    /// Lower z bound to build with.
    pub min_z: i64,
    /// Upper x bound to build with.
    pub max_x: i64,
    /// Upper y bound to build with.
    pub max_y: i64,
    /// Upper z bound to build with.
    pub max_z: i64,
}

impl AABBBuilder {
    /// Set the lower x bound.
    pub fn min_x(self, v: i64) -> (r: Self)
        ensures
            r == (Self { min_x: v, ..self }),
    {
        Self { min_x: v, ..self }
    }

    /// Set the lower y bound.
    pub fn min_y(self, v: i64) -> (r: Self)
        ensures
            r == (Self { min_y: v, ..self }),
    {
        Self { min_y: v, ..self }
    }

    /// Set the lower z bound.
    pub fn min_z(self, v: i64) -> (r: Self)
        ensures
            r == (Self { min_z: v, ..self }),
    {
        Self { min_z: v, ..self }
    }

    /// Set the upper x bound.
    pub fn max_x(self, v: i64) -> (r: Self)
        ensures
            r == (Self { max_x: v, ..self }),
    {
        Self { max_x: v, ..self }
    }

    /// Set the upper y bound.
    pub fn max_y(self, v: i64) -> (r: Self)
        ensures
            r == (Self { max_y: v, ..self }),
    {
        Self { max_y: v, ..self }
    }

    /// Set the upper z bound.
    pub fn max_z(self, v: i64) -> (r: Self)
        ensures
            r == (Self { max_z: v, ..self }),
    {
        Self { max_z: v, ..self }
    }

    /// Materialize the box with the configured bounds.
    pub fn build(self) -> (r: AABB)
        ensures
            r == (AABB {
                min_x: self.min_x,
                min_y: self.min_y,
                min_z: self.min_z,
                max_x: self.max_x,
                max_y: self.max_y,
                max_z: self.max_z,
            }),
    {
        AABB {
            min_x: self.min_x,
            min_y: self.min_y,
            min_z: self.min_z,
            max_x: self.max_x,
            max_y: self.max_y,
            max_z: self.max_z,
        }
    }
}

impl BlockRotation {
    /// Rotate a box into this block orientation and rebuild its bounds
    /// from the rotated extremes.
    #[verifier::rlimit(100)]
    pub fn rotate_aabb(&self, aabb: &AABB, y_rotate: bool, translate: bool) -> (r: AABB)
        requires
            aabb_bounded(aabb@, MAX_COORD as int),
        ensures
            r@ == spec_rotate_aabb(*self, aabb@, y_rotate, translate),
    {
        let mut min = Vec3(aabb.min_x, aabb.min_y, aabb.min_z);
        let mut max = Vec3(aabb.max_x, aabb.max_y, aabb.max_z);

        let track = y_rotate && (matches!(self, BlockRotation::PY(_)) || matches!(
            self,
            BlockRotation::NY(_),
        ));

        let mut min_x: i64 = 0;
        let mut min_z: i64 = 0;
        let mut max_x: i64 = 0;
        let mut max_z: i64 = 0;

        if track {
            let mut b1 = Vec3(aabb.min_x, aabb.min_y, aabb.min_z);
            let mut b2 = Vec3(aabb.min_x, aabb.min_y, aabb.max_z);
            let mut b3 = Vec3(aabb.max_x, aabb.min_y, aabb.min_z);
            let mut b4 = Vec3(aabb.max_x, aabb.min_y, aabb.max_z);
            self.rotate_node(&mut b1, true, true);
            self.rotate_node(&mut b2, true, true);
            self.rotate_node(&mut b3, true, true);
            self.rotate_node(&mut b4, true, true);
            min_x = min_i64(min_i64(min_i64(b1.0, b2.0), b3.0), b4.0);
            min_z = min_i64(min_i64(min_i64(b1.2, b2.2), b3.2), b4.2);

            let mut t1 = Vec3(aabb.min_x, aabb.max_y, aabb.min_z);
            let mut t2 = Vec3(aabb.min_x, aabb.max_y, aabb.max_z);
            let mut t3 = Vec3(aabb.max_x, aabb.max_y, aabb.min_z);
            let mut t4 = Vec3(aabb.max_x, aabb.max_y, aabb.max_z);
            self.rotate_node(&mut t1, true, true);
            self.rotate_node(&mut t2, true, true);
            self.rotate_node(&mut t3, true, true);
            self.rotate_node(&mut t4, true, true);
            max_x = max_i64(max_i64(max_i64(t1.0, t2.0), t3.0), t4.0);
            max_z = max_i64(max_i64(max_i64(t1.2, t2.2), t3.2), t4.2);
        }

        self.rotate_node(&mut min, false, translate);
        self.rotate_node(&mut max, false, translate);

        AABB {
            min_x: if track {
                min_x
            } else {
                min_i64(min.0, max.0)
            },
            min_y: min_i64(min.1, max.1),
            min_z: if track {
                min_z
            } else {
                min_i64(min.2, max.2)
            },
            max_x: if track {
                max_x
            } else {
                max_i64(min.0, max.0)
            },
            max_y: max_i64(max.1, min.1),
            max_z: if track {
                max_z
            } else {
                max_i64(min.2, max.2)
            },
        }
    }
}

/// Law: a unit box carried into the NX orientation is still a valid
/// box, and its volume is still exactly one voxel cell, whatever the
/// `y_rotate` and `translate` switches say and whatever sub-rotation
/// count the NX orientation carries.
pub proof fn lemma_rotate_aabb_nx_unit(y: u32, y_rotate: bool, translate: bool)
    ensures
        ({
            let unit = (Vec3(0int, 0int, 0int), Vec3(65536int, 65536int, 65536int));
            let r = spec_rotate_aabb(BlockRotation::NX(y), unit, y_rotate, translate);
            aabb_valid(r) && aabb_volume(r) == 65536int * 65536int * 65536int
        }),
{
}

} // verus!
