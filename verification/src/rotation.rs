//! Block rotation.
//!
//! A block can face one of six axes (PX, NX, PY, NY, PZ, NZ) and carry
//! a y-axis sub-rotation. The sub-rotation is quantized: a stored value
//! counts segments of 1/16 turn, and all trigonometry happens through
//! the fixed-point sine table of `seg_sin`, so every rotation here is an
//! exact integer computation.

use vstd::prelude::*;

use crate::math::{bounded3, tdiv, Vec3, FIXED_HALF, FIXED_ONE, MAX_COORD};
use crate::math::{lemma_mul_bound, lemma_tdiv_bound};

verus! {

/// Axis code of the PY (default, up) orientation.
pub const PY_ROTATION: u32 = 0;

/// Axis code of the NY (down) orientation.
pub const NY_ROTATION: u32 = 1;

/// Axis code of the PX orientation.
pub const PX_ROTATION: u32 = 2;

/// Axis code of the NX orientation.
pub const NX_ROTATION: u32 = 3;

/// Axis code of the PZ orientation.
pub const PZ_ROTATION: u32 = 4;

/// Axis code of the NZ orientation.
pub const NZ_ROTATION: u32 = 5;

/// Number of discrete y-axis sub-rotation segments in a full turn.
pub const Y_ROT_SEGMENTS: u32 = 16;

/// The errors this crate signals: each one is a misuse introduced at
/// the signalling call, never a transient condition.
#[derive(Debug, Clone, Copy, PartialEq, Eq, Structural)]
pub enum BlockError {
    /// A rotation axis code outside 0..=5 was handed to `encode`.
    UnknownRotation,
    /// Block id 0 is reserved for air and cannot be given out.
    ReservedAirId,
    /// Sunlight is not a torch channel and has no torch light level.
    SunlightIsNotTorch,
}

/// One of the six face-axis orientations, carrying the y-axis
/// sub-rotation as a count of 1/16-turn segments (the count is kept as
/// given, so a count of 16 or more means one or more whole extra turns).
#[derive(Debug, Clone, Copy, PartialEq, Eq, Structural)]
pub enum BlockRotation {
    /// Facing the positive x axis.
    PX(u32),
    /// Facing the negative x axis.
    NX(u32),
    /// Facing the positive y axis (the default, upright orientation).
    PY(u32),
    /// Facing the negative y axis.
    NY(u32),
    /// Facing the positive z axis.
    PZ(u32),
    /// Facing the negative z axis.
    NZ(u32),
}

impl Default for BlockRotation {
    /// The default orientation: upright, with no sub-rotation.
    fn default() -> (r: Self)
        ensures
            r == BlockRotation::PY(0u32),
    {
        BlockRotation::PY(0)
    }
}

/// The y-axis sub-rotation count stored in a rotation.
pub open spec fn y_count_of(r: BlockRotation) -> u32 {
    match r {
        BlockRotation::PX(y) => y,
        BlockRotation::NX(y) => y,
        BlockRotation::PY(y) => y,
        BlockRotation::NY(y) => y,
        BlockRotation::PZ(y) => y,
        BlockRotation::NZ(y) => y,
    }
}

/// The axis code of a rotation, inverse to `spec_encode`.
pub open spec fn axis_code_of(r: BlockRotation) -> u32 {
    match r {
        BlockRotation::PX(_) => PX_ROTATION,
        BlockRotation::NX(_) => NX_ROTATION,
        BlockRotation::PY(_) => PY_ROTATION,
        BlockRotation::NY(_) => NY_ROTATION,
        BlockRotation::PZ(_) => PZ_ROTATION,
        BlockRotation::NZ(_) => NZ_ROTATION,
    }
}

/// The rotation built from an axis code in 0..=5 and a y-rotation count.
pub open spec fn spec_encode(axis: u32, y: u32) -> BlockRotation {
    if axis == NY_ROTATION {
        BlockRotation::NY(y)
    } else if axis == PX_ROTATION {
        BlockRotation::PX(y)
    } else if axis == NX_ROTATION {
        BlockRotation::NX(y)
    } else if axis == PZ_ROTATION {
        BlockRotation::PZ(y)
    } else if axis == NZ_ROTATION {
        BlockRotation::NZ(y)
    } else {
        BlockRotation::PY(y)
    }
}

/// Fixed-point sine of `seg` sixteenths of a turn, scaled by
/// `FIXED_ONE`; each entry is the nearest integer to the exact value.
pub open spec fn spec_seg_sin(seg: int) -> int {
    if seg == 0 {
        0
    } else if seg == 1 {
        25080
    } else if seg == 2 {
        46341
    } else if seg == 3 {
        60547
    } else if seg == 4 {
        65536
    } else if seg == 5 {
        60547
    } else if seg == 6 {
        46341
    } else if seg == 7 {
        25080
    } else if seg == 8 {
        0
    } else if seg == 9 {
        -25080
    } else if seg == 10 {
        -46341
    } else if seg == 11 {
        -60547
    } else if seg == 12 {
        -65536
    } else if seg == 13 {
        -60547
    } else if seg == 14 {
        -46341
    } else {
        -25080
    }
}

/// Fixed-point cosine of `seg` sixteenths of a turn: the sine a quarter
/// turn further on.
pub open spec fn spec_seg_cos(seg: int) -> int {
    spec_seg_sin((seg + 4) % 16)
}

/// Fixed-point sine of `seg` sixteenths of a turn.
pub fn seg_sin(seg: u32) -> (r: i64)
    requires
        seg < 16,
    ensures
        r == spec_seg_sin(seg as int),
        -65536 <= r <= 65536,
{
    match seg {
        0 => 0,
        1 => 25080,
        2 => 46341,
        3 => 60547,
        4 => 65536,
        5 => 60547,
        6 => 46341,
        7 => 25080,
        8 => 0,
        9 => -25080,
        10 => -46341,
        11 => -60547,
        12 => -65536,
        13 => -60547,
        14 => -46341,
        _ => -25080,
    }
}

/// Fixed-point cosine of `seg` sixteenths of a turn.
pub fn seg_cos(seg: u32) -> (r: i64)
    requires
        seg < 16,
    ensures
        r == spec_seg_cos(seg as int),
        -65536 <= r <= 65536,
{
    seg_sin((seg + 4) % 16)
}

/// Magnitude of every trig table entry is at most `FIXED_ONE`.
proof fn lemma_trig_bounded(seg: int)
    ensures
        -65536 <= spec_seg_sin(seg) <= 65536,
        -65536 <= spec_seg_cos(seg) <= 65536,
{
}

/// Rotation of `p` about the x axis by `seg` sixteenths of a turn.
pub open spec fn spec_rotate_x(p: Vec3<int>, seg: int) -> Vec3<int> {
    Vec3(
        p.0,
        tdiv(p.1 * spec_seg_cos(seg) - p.2 * spec_seg_sin(seg), 65536),
        tdiv(p.2 * spec_seg_cos(seg) + p.1 * spec_seg_sin(seg), 65536),
    )
}

/// Rotation of `p` about the y axis by `seg` sixteenths of a turn.
pub open spec fn spec_rotate_y(p: Vec3<int>, seg: int) -> Vec3<int> {
    Vec3(
        tdiv(p.0 * spec_seg_cos(seg) + p.2 * spec_seg_sin(seg), 65536),
        p.1,
        tdiv(p.2 * spec_seg_cos(seg) - p.0 * spec_seg_sin(seg), 65536),
    )
}

/// Rotation of `p` about the z axis by `seg` sixteenths of a turn.
pub open spec fn spec_rotate_z(p: Vec3<int>, seg: int) -> Vec3<int> {
    Vec3(
        tdiv(p.0 * spec_seg_cos(seg) - p.1 * spec_seg_sin(seg), 65536),
        tdiv(p.1 * spec_seg_cos(seg) + p.0 * spec_seg_sin(seg), 65536),
        p.2,
    )
}

/// A bounded input keeps each spec rotation bounded: the two products
/// each stay within `b * FIXED_ONE`, and the division scales them back.
proof fn lemma_rotate_bound(p: Vec3<int>, seg: int, b: int)
    requires
        0 <= b,
        bounded3(p, b),
    ensures
        bounded3(spec_rotate_x(p, seg), 2 * b),
        bounded3(spec_rotate_y(p, seg), 2 * b),
        bounded3(spec_rotate_z(p, seg), 2 * b),
{
    lemma_trig_bounded(seg);
    let s = spec_seg_sin(seg);
    let c = spec_seg_cos(seg);
    lemma_mul_bound(p.0, c, b, 65536);
    lemma_mul_bound(p.0, s, b, 65536);
    lemma_mul_bound(p.1, c, b, 65536);
    lemma_mul_bound(p.1, s, b, 65536);
    lemma_mul_bound(p.2, c, b, 65536);
    lemma_mul_bound(p.2, s, b, 65536);
    assert(2 * b * 65536 == 2 * (b * 65536)) by (nonlinear_arith);
    lemma_tdiv_bound(p.1 * c - p.2 * s, 2 * b);
    lemma_tdiv_bound(p.2 * c + p.1 * s, 2 * b);
    lemma_tdiv_bound(p.0 * c + p.2 * s, 2 * b);
    lemma_tdiv_bound(p.2 * c - p.0 * s, 2 * b);
    lemma_tdiv_bound(p.0 * c - p.1 * s, 2 * b);
    lemma_tdiv_bound(p.1 * c + p.0 * s, 2 * b);
}

/// Rotate `node` about the x axis by `seg` sixteenths of a turn.
fn rotate_x(node: &mut Vec3<i64>, seg: u32)
    requires
        seg < 16,
        bounded3(old(node)@, 32 * MAX_COORD as int),
    ensures
        final(node)@ == spec_rotate_x(old(node)@, seg as int),
        bounded3(final(node)@, 64 * MAX_COORD as int),
{
    proof {
        lemma_rotate_bound(old(node)@, seg as int, 32 * MAX_COORD as int);
        let s = spec_seg_sin(seg as int);
        let c = spec_seg_cos(seg as int);
        lemma_mul_bound(old(node)@.1, c, 32 * MAX_COORD as int, 65536);
        lemma_mul_bound(old(node)@.1, s, 32 * MAX_COORD as int, 65536);
        lemma_mul_bound(old(node)@.2, c, 32 * MAX_COORD as int, 65536);
        lemma_mul_bound(old(node)@.2, s, 32 * MAX_COORD as int, 65536);
    }
    let sin_theta = seg_sin(seg);
    let cos_theta = seg_cos(seg);
    let y = node.1;
    let z = node.2;
    node.1 = (y * cos_theta - z * sin_theta) / 65536;
    node.2 = (z * cos_theta + y * sin_theta) / 65536;
}

/// Rotate `node` about the y axis by `seg` sixteenths of a turn.
fn rotate_y(node: &mut Vec3<i64>, seg: u32)
    requires
        seg < 16,
        bounded3(old(node)@, 32 * MAX_COORD as int),
    ensures
        final(node)@ == spec_rotate_y(old(node)@, seg as int),
        bounded3(final(node)@, 64 * MAX_COORD as int),
{
    proof {
        lemma_rotate_bound(old(node)@, seg as int, 32 * MAX_COORD as int);
        let s = spec_seg_sin(seg as int);
        let c = spec_seg_cos(seg as int);
        lemma_mul_bound(old(node)@.0, c, 32 * MAX_COORD as int, 65536);
        lemma_mul_bound(old(node)@.0, s, 32 * MAX_COORD as int, 65536);
        lemma_mul_bound(old(node)@.2, c, 32 * MAX_COORD as int, 65536);
        lemma_mul_bound(old(node)@.2, s, 32 * MAX_COORD as int, 65536);
    }
    let sin_theta = seg_sin(seg);
    let cos_theta = seg_cos(seg);
    let x = node.0;
    let z = node.2;
    node.0 = (x * cos_theta + z * sin_theta) / 65536;
    node.2 = (z * cos_theta - x * sin_theta) / 65536;
}

/// Rotate `node` about the z axis by `seg` sixteenths of a turn.
fn rotate_z(node: &mut Vec3<i64>, seg: u32)
    requires
        seg < 16,
        bounded3(old(node)@, 32 * MAX_COORD as int),
    ensures
        final(node)@ == spec_rotate_z(old(node)@, seg as int),
        bounded3(final(node)@, 64 * MAX_COORD as int),
{
    proof {
        lemma_rotate_bound(old(node)@, seg as int, 32 * MAX_COORD as int);
        let s = spec_seg_sin(seg as int);
        let c = spec_seg_cos(seg as int);
        lemma_mul_bound(old(node)@.0, c, 32 * MAX_COORD as int, 65536);
        lemma_mul_bound(old(node)@.0, s, 32 * MAX_COORD as int, 65536);
        lemma_mul_bound(old(node)@.1, c, 32 * MAX_COORD as int, 65536);
        lemma_mul_bound(old(node)@.1, s, 32 * MAX_COORD as int, 65536);
    }
    let sin_theta = seg_sin(seg);
    let cos_theta = seg_cos(seg);
    let x = node.0;
    let y = node.1;
    node.0 = (x * cos_theta - y * sin_theta) / 65536;
    node.1 = (y * cos_theta + x * sin_theta) / 65536;
}

/// The y-axis sub-rotation of `spec_rotate_node`: the point swung about
/// the cell centre (a half cell along x and z) by the rotation's
/// segment.
pub open spec fn spec_y_spin(r: BlockRotation, p: Vec3<int>) -> Vec3<int> {
    let seg = (y_count_of(r) % 16) as int;
    let q = spec_rotate_y(Vec3(p.0 - 32768, p.1, p.2 - 32768), seg);
    Vec3(q.0 + 32768, q.1, q.2 + 32768)
}

/// A bounded point stays bounded under the y-axis spin: recentring
/// moves it by half a cell each way and the rotation at most doubles it.
proof fn lemma_y_spin_bound(r: BlockRotation, p: Vec3<int>, b: int)
    requires
        0 <= b,
        bounded3(p, b),
    ensures
        bounded3(spec_y_spin(r, p), 2 * b + 131072),
{
    let seg = (y_count_of(r) % 16) as int;
    let q = Vec3(p.0 - 32768, p.1, p.2 - 32768);
    lemma_rotate_bound(q, seg, b + 32768);
}

/// What `rotate_node` does to a point: an optional y-axis spin about
/// the cell centre, then the quarter- or half-turn that carries PY onto
/// this rotation's axis (NY re-applies the spin first, by design), then
/// an optional unit translation that puts the rotated cell back onto
/// the unit cell.
pub open spec fn spec_rotate_node(
    r: BlockRotation,
    p: Vec3<int>,
    y_rotate: bool,
    translate: bool,
) -> Vec3<int> {
    let spin = y_rotate && y_count_of(r) != 0;
    let p1 = if spin {
        spec_y_spin(r, p)
    } else {
        p
    };
    match r {
        BlockRotation::PX(_) => {
            let q = spec_rotate_z(p1, 12);
            if translate {
                Vec3(q.0, q.1 + 65536, q.2)
            } else {
                q
            }
        },
        BlockRotation::NX(_) => {
            let q = spec_rotate_z(p1, 4);
            if translate {
                Vec3(q.0 + 65536, q.1, q.2)
            } else {
                q
            }
        },
        BlockRotation::PY(_) => p1,
        BlockRotation::NY(_) => {
            let p2 = if spin {
                spec_y_spin(r, p1)
            } else {
                p1
            };
            let q = spec_rotate_x(p2, 8);
            if translate {
                Vec3(q.0, q.1 + 65536, q.2 + 65536)
            } else {
                q
            }
        },
        BlockRotation::PZ(_) => {
            let q = spec_rotate_x(p1, 4);
            if translate {
                Vec3(q.0, q.1 + 65536, q.2)
            } else {
                q
            }
        },
        BlockRotation::NZ(_) => {
            let q = spec_rotate_x(p1, 12);
            if translate {
                Vec3(q.0, q.1, q.2 + 65536)
            } else {
                q
            }
        },
    }
}

/// Swing `node` about the cell centre by the rotation's y-segment:
/// the executable side of `spec_y_spin`.
fn y_spin(node: &mut Vec3<i64>, r: &BlockRotation, Ghost(b): Ghost<int>)
    requires
        0 <= b <= 15 * MAX_COORD as int,
        bounded3(old(node)@, b),
    ensures
        final(node)@ == spec_y_spin(*r, old(node)@),
        bounded3(final(node)@, 2 * b + 131072),
{
    proof {
        lemma_y_spin_bound(*r, old(node)@, b);
    }
    let rot = match r {
        BlockRotation::PX(y) => *y,
        BlockRotation::NX(y) => *y,
        BlockRotation::PY(y) => *y,
        BlockRotation::NY(y) => *y,
        BlockRotation::PZ(y) => *y,
        BlockRotation::NZ(y) => *y,
    };
    let seg = rot % Y_ROT_SEGMENTS;
    node.0 = node.0 - FIXED_HALF;
    node.2 = node.2 - FIXED_HALF;
    rotate_y(node, seg);
    node.0 = node.0 + FIXED_HALF;
    node.2 = node.2 + FIXED_HALF;
}

/// Which incoming flag a probe component selects: the fixed-point
/// values one to five name px, py, pz, nx and ny; anything else falls
/// to nz.
pub open spec fn spec_pick_flag(n: int, flags: [bool; 6]) -> bool {
    if n == 65536 {
        flags[0]
    } else if n == 131072 {
        flags[1]
    } else if n == 196608 {
        flags[2]
    } else if n == 262144 {
        flags[3]
    } else if n == 327680 {
        flags[4]
    } else {
        flags[5]
    }
}

/// What `rotate_transparency` returns: unchanged flags for the upright
/// identity rotation; otherwise two marker probes are sent through
/// `spec_rotate_node` and each resulting component selects the flag of
/// the direction it came from.
pub open spec fn spec_rotate_transparency(r: BlockRotation, flags: [bool; 6]) -> Seq<bool> {
    if r is PY && y_count_of(r) == 0 {
        flags@
    } else {
        let pos = spec_rotate_node(r, Vec3(65536, 131072, 196608), true, false);
        let neg = spec_rotate_node(r, Vec3(262144, 327680, 393216), true, false);
        seq![
            spec_pick_flag(pos.0, flags),
            spec_pick_flag(pos.1, flags),
            spec_pick_flag(pos.2, flags),
            spec_pick_flag(neg.0, flags),
            spec_pick_flag(neg.1, flags),
            spec_pick_flag(neg.2, flags),
        ]
    }
}

/// Which incoming flag a probe component selects.
fn pick_flag(n: i64, flags: &[bool; 6]) -> (r: bool)
    ensures
        r == spec_pick_flag(n as int, *flags),
{
    if n == 65536 {
        flags[0]
    } else if n == 131072 {
        flags[1]
    } else if n == 196608 {
        flags[2]
    } else if n == 262144 {
        flags[3]
    } else if n == 327680 {
        flags[4]
    } else {
        flags[5]
    }
}

impl BlockRotation {
    /// Build a rotation from an axis code and a y-rotation count, or
    /// signal `UnknownRotation` for an axis code outside 0..=5.
    pub fn encode(value: u32, y_rotation: u32) -> (r: Result<Self, BlockError>)
        ensures
            value <= 5 <==> r is Ok,
            value <= 5 ==> r == Ok::<Self, BlockError>(spec_encode(value, y_rotation)),
            value > 5 ==> r == Err::<Self, BlockError>(BlockError::UnknownRotation),
    {
        match value {
            0 => Ok(BlockRotation::PY(y_rotation)),
            1 => Ok(BlockRotation::NY(y_rotation)),
            2 => Ok(BlockRotation::PX(y_rotation)),
            3 => Ok(BlockRotation::NX(y_rotation)),
            4 => Ok(BlockRotation::PZ(y_rotation)),
            5 => Ok(BlockRotation::NZ(y_rotation)),
            _ => Err(BlockError::UnknownRotation),
        }
    }

    /// Rotate a point into this block orientation: an optional y-axis
    /// spin about the cell centre, the quarter- or half-turn onto this
    /// axis, and an optional unit translation back onto the unit cell.
    #[verifier::rlimit(60)]
    pub fn rotate_node(&self, node: &mut Vec3<i64>, y_rotate: bool, translate: bool)
        requires
            bounded3(old(node)@, MAX_COORD as int),
        ensures
            final(node)@ == spec_rotate_node(*self, old(node)@, y_rotate, translate),
            bounded3(final(node)@, 65 * MAX_COORD as int),
    {
        let rot = match self {
            BlockRotation::PX(y) => *y,
            BlockRotation::NX(y) => *y,
            BlockRotation::PY(y) => *y,
            BlockRotation::NY(y) => *y,
            BlockRotation::PZ(y) => *y,
            BlockRotation::NZ(y) => *y,
        };
        if y_rotate && rot != 0 {
            y_spin(node, self, Ghost(MAX_COORD as int));
        }

        match self {
            BlockRotation::PX(_) => {
                rotate_z(node, 12);
                if translate {
                    node.1 = node.1 + FIXED_ONE;
                }
            },
            BlockRotation::NX(_) => {
                rotate_z(node, 4);
                if translate {
                    node.0 = node.0 + FIXED_ONE;
                }
            },
            BlockRotation::PY(_) => {},
            BlockRotation::NY(_) => {
                if y_rotate && rot != 0 {
                    y_spin(node, self, Ghost(3 * MAX_COORD as int));
                }
                rotate_x(node, 8);
                if translate {
                    node.1 = node.1 + FIXED_ONE;
                    node.2 = node.2 + FIXED_ONE;
                }
            },
            BlockRotation::PZ(_) => {
                rotate_x(node, 4);
                if translate {
                    node.1 = node.1 + FIXED_ONE;
                }
            },
            BlockRotation::NZ(_) => {
                rotate_x(node, 12);
                if translate {
                    node.2 = node.2 + FIXED_ONE;
                }
            },
        }
    }

    /// Permute six per-direction transparency flags to where each face
    /// axis lands under this rotation. The upright identity rotation
    /// returns the flags unchanged.
    #[verifier::rlimit(100)]
    pub fn rotate_transparency(&self, flags: [bool; 6]) -> (r: [bool; 6])
        ensures
            r@ =~= spec_rotate_transparency(*self, flags),
    {
        if let BlockRotation::PY(rot) = self {
            if *rot == 0 {
                return flags;
            }
        }

        let mut positive = Vec3(FIXED_ONE, 2 * FIXED_ONE, 3 * FIXED_ONE);
        let mut negative = Vec3(4 * FIXED_ONE, 5 * FIXED_ONE, 6 * FIXED_ONE);

        self.rotate_node(&mut positive, true, false);
        self.rotate_node(&mut negative, true, false);

        [
            pick_flag(positive.0, &flags),
            pick_flag(positive.1, &flags),
            pick_flag(positive.2, &flags),
            pick_flag(negative.0, &flags),
            pick_flag(negative.1, &flags),
            pick_flag(negative.2, &flags),
        ]
    }

    /// Read back the axis code and the y-rotation count of a rotation:
    /// the count comes back reduced to its segment in 0..=15, so whole
    /// extra turns are forgotten.
    pub fn decode(rotation: &Self) -> (r: (u32, u32))
        ensures
            r.0 == axis_code_of(*rotation),
            r.1 == y_count_of(*rotation) % 16,
            r.1 < 16,
    {
        match rotation {
            BlockRotation::PX(y) => (PX_ROTATION, *y % Y_ROT_SEGMENTS),
            BlockRotation::NX(y) => (NX_ROTATION, *y % Y_ROT_SEGMENTS),
            BlockRotation::PY(y) => (PY_ROTATION, *y % Y_ROT_SEGMENTS),
            BlockRotation::NY(y) => (NY_ROTATION, *y % Y_ROT_SEGMENTS),
            BlockRotation::PZ(y) => (PZ_ROTATION, *y % Y_ROT_SEGMENTS),
            BlockRotation::NZ(y) => (NZ_ROTATION, *y % Y_ROT_SEGMENTS),
        }
    }
}

/// Law: encoding an axis code and a y-segment and decoding the result
/// gives both back unchanged, for every axis code 0..=5 and every
/// segment 0..=15. `encode` returns `Ok(spec_encode(axis, segment))`
/// exactly on these axis codes, and `decode` returns the axis code and
/// the segment reduced modulo 16.
pub proof fn lemma_encode_decode_round_trip(axis: u32, segment: u32)
    requires
        axis <= 5,
        segment < 16,
    ensures
        axis_code_of(spec_encode(axis, segment)) == axis,
        y_count_of(spec_encode(axis, segment)) % 16 == segment,
{
}

/// Law: the upright identity rotation (PY with no sub-rotation) leaves
/// every point unchanged under `rotate_node`, whatever the `y_rotate`
/// and `translate` switches say.
pub proof fn lemma_rotate_node_upright_identity(p: Vec3<int>, y_rotate: bool, translate: bool)
    ensures
        spec_rotate_node(BlockRotation::PY(0u32), p, y_rotate, translate) == p,
{
}

/// Law: `rotate_transparency` under the upright identity rotation (PY
/// with no sub-rotation) is the identity permutation on every
/// combination of six flags.
pub proof fn lemma_rotate_transparency_upright_identity(flags: [bool; 6])
    ensures
        spec_rotate_transparency(BlockRotation::PY(0u32), flags) == flags@,
{
}

} // verus!
