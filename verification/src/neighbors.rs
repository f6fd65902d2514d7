//! The neighbour snapshot.
//!
//! Face and box resolution reads the same neighbourhood many times, so
//! `Neighbors::populate` reads the 27 packed voxel and light values
//! around a centre once, into a hash map keyed by relative offset, and
//! the accessors decode from the snapshot. An offset that was never
//! populated reads as the all-zero packed value.

use vstd::prelude::*;

use crate::access::VoxelAccess;
use crate::lights::{spec_sunlight_of, spec_torch_light_of, LightColor, LightUtils};
use crate::math::Vec3;
use crate::rotation::{spec_encode, BlockError, BlockRotation};
use crate::voxel::{spec_axis_of, spec_id_of, spec_stage_of, spec_y_rotation_of, BlockUtils};

verus! {

/// The hash map behind a snapshot: relative offset to packed voxel and
/// light value. Verus sees it only through `neighbor_map_contents` and
/// the three wrappers below.
#[verifier::external_body]
pub struct NeighborMap {
    inner: hashbrown::HashMap<(i32, i32, i32), [u32; 2]>,
}

/// What the map holds: each stored offset with its packed voxel and
/// light value.
pub uninterp spec fn neighbor_map_contents(m: NeighborMap) -> Map<(int, int, int), (u32, u32)>;

/// Relies on hashbrown::HashMap::new: the new map is empty.
#[verifier::external_body]
fn neighbor_map_new() -> (r: NeighborMap)
    ensures
        (neighbor_map_contents(r) == Map::<(int, int, int), (u32, u32)>::empty()),
{
    NeighborMap { inner: hashbrown::HashMap::new() }
}

/// Relies on hashbrown::HashMap::insert: the map afterwards holds the
/// given value under the given key and is otherwise unchanged.
#[verifier::external_body]
fn neighbor_map_insert(m: &mut NeighborMap, key: (i32, i32, i32), voxel: u32, light: u32)
    ensures
        neighbor_map_contents(*final(m)) == neighbor_map_contents(*old(m)).insert(
            (key.0 as int, key.1 as int, key.2 as int),
            (voxel, light),
        ),
{
    m.inner.insert(key, [voxel, light]);
}

/// Relies on hashbrown::HashMap::get: the stored value under the key,
/// or nothing when the key was never stored.
#[verifier::external_body]
fn neighbor_map_get(m: &NeighborMap, key: (i32, i32, i32)) -> (r: Option<(u32, u32)>)
    ensures
        ({
            let k = (key.0 as int, key.1 as int, key.2 as int);
            match r {
                Some(v) => neighbor_map_contents(*m).contains_key(k)
                    && neighbor_map_contents(*m)[k] == v,
                None => !neighbor_map_contents(*m).contains_key(k),
            }
        }),
{
    match m.inner.get(&key) {
        Some(v) => Some((v[0], v[1])),
        None => None,
    }
}

/// The snapshot map holds, at offset (dx, dy, dz), exactly what the
/// world holds at the centre plus that offset.
pub open spec fn snap_entry<V: VoxelAccess>(
    m: NeighborMap,
    space: &V,
    vx: int,
    vy: int,
    vz: int,
    dx: int,
    dy: int,
    dz: int,
) -> bool {
    &&& neighbor_map_contents(m).contains_key((dx, dy, dz))
    &&& neighbor_map_contents(m)[(dx, dy, dz)] == (
        space.spec_raw_voxel(vx + dx, vy + dy, vz + dz),
        space.spec_raw_light(vx + dx, vy + dy, vz + dz),
    )
}

/// An immutable 3-by-3-by-3 snapshot of packed voxel and light values
/// around a centre position, keyed by relative offset.
pub struct Neighbors {
    /// The world position the snapshot is centred on.
    pub center: Vec3<i32>,
    /// The cached packed values, keyed by relative offset.
    pub map: NeighborMap,
}

impl Neighbors {
    /// The packed voxel and light value the snapshot holds at an
    /// offset; an offset that was never populated holds zeroes.
    pub open spec fn raw_at(&self, dx: int, dy: int, dz: int) -> (u32, u32) {
        if neighbor_map_contents(self.map).contains_key((dx, dy, dz)) {
            neighbor_map_contents(self.map)[(dx, dy, dz)]
        } else {
            (0u32, 0u32)
        }
    }

    /// The snapshot holds, at every offset in the 3-by-3-by-3
    /// neighbourhood, exactly what the world holds at the centre plus
    /// that offset — and holds nothing at any other offset.
    pub open spec fn populated_from<V: VoxelAccess>(&self, center: Vec3<i32>, space: &V) -> bool {
        &&& self.center == center
        &&& forall|dx: int, dy: int, dz: int|
            -1 <= dx <= 1 && -1 <= dy <= 1 && -1 <= dz <= 1 ==> #[trigger] snap_entry(
                self.map,
                space,
                center.0 as int,
                center.1 as int,
                center.2 as int,
                dx,
                dy,
                dz,
            )
        &&& forall|dx: int, dy: int, dz: int|
            #[trigger] neighbor_map_contents(self.map).contains_key((dx, dy, dz)) ==> -1 <= dx <= 1
                && -1 <= dy <= 1 && -1 <= dz <= 1
    }

    /// Read the 27 packed voxel and light values around `center` from
    /// the world, once each, into a snapshot.
    pub fn populate<V: VoxelAccess>(center: Vec3<i32>, space: &V) -> (r: Self)
        requires
            i32::MIN + 1 <= center.0 <= i32::MAX - 1,
            i32::MIN + 1 <= center.1 <= i32::MAX - 1,
            i32::MIN + 1 <= center.2 <= i32::MAX - 1,
        ensures
            r.populated_from(center, space),
    {
        let mut map = neighbor_map_new();
        let Vec3(vx, vy, vz) = center;

        let mut x: i32 = -1;
        while x <= 1
            invariant
                -1 <= x <= 2,
                i32::MIN + 1 <= vx <= i32::MAX - 1,
                i32::MIN + 1 <= vy <= i32::MAX - 1,
                i32::MIN + 1 <= vz <= i32::MAX - 1,
                forall|dx: int, dy: int, dz: int|
                    -1 <= dx < x && -1 <= dy <= 1 && -1 <= dz <= 1 ==> #[trigger] snap_entry(
                        map,
                        space,
                        vx as int,
                        vy as int,
                        vz as int,
                        dx,
                        dy,
                        dz,
                    ),
                forall|a: int, b: int, c: int|
                    #[trigger] neighbor_map_contents(map).contains_key((a, b, c)) ==> -1 <= a < x
                        && -1 <= b <= 1 && -1 <= c <= 1,
            decreases 2 - x,
        {
            let mut y: i32 = -1;
            while y <= 1
                invariant
                    -1 <= x <= 1,
                    -1 <= y <= 2,
                    i32::MIN + 1 <= vx <= i32::MAX - 1,
                    i32::MIN + 1 <= vy <= i32::MAX - 1,
                    i32::MIN + 1 <= vz <= i32::MAX - 1,
                    forall|dx: int, dy: int, dz: int|
                        -1 <= dx < x && -1 <= dy <= 1 && -1 <= dz <= 1 ==> #[trigger] snap_entry(
                            map,
                            space,
                            vx as int,
                            vy as int,
                            vz as int,
                            dx,
                            dy,
                            dz,
                        ),
                    forall|dy: int, dz: int|
                        -1 <= dy < y && -1 <= dz <= 1 ==> #[trigger] snap_entry(
                            map,
                            space,
                            vx as int,
                            vy as int,
                            vz as int,
                            x as int,
                            dy,
                            dz,
                        ),
                    forall|a: int, b: int, c: int|
                        #[trigger] neighbor_map_contents(map).contains_key((a, b, c)) ==> (-1 <= a
                            < x && -1 <= b <= 1 && -1 <= c <= 1) || (a == x && -1 <= b < y && -1
                            <= c <= 1),
                decreases 2 - y,
            {
                let mut z: i32 = -1;
                while z <= 1
                    invariant
                        -1 <= x <= 1,
                        -1 <= y <= 1,
                        -1 <= z <= 2,
                        i32::MIN + 1 <= vx <= i32::MAX - 1,
                        i32::MIN + 1 <= vy <= i32::MAX - 1,
                        i32::MIN + 1 <= vz <= i32::MAX - 1,
                        forall|dx: int, dy: int, dz: int|
                            -1 <= dx < x && -1 <= dy <= 1 && -1 <= dz <= 1
                                ==> #[trigger] snap_entry(
                                map,
                                space,
                                vx as int,
                                vy as int,
                                vz as int,
                                dx,
                                dy,
                                dz,
                            ),
                        forall|dy: int, dz: int|
                            -1 <= dy < y && -1 <= dz <= 1 ==> #[trigger] snap_entry(
                                map,
                                space,
                                vx as int,
                                vy as int,
                                vz as int,
                                x as int,
                                dy,
                                dz,
                            ),
                        forall|dz: int|
                            -1 <= dz < z ==> #[trigger] snap_entry(
                                map,
                                space,
                                vx as int,
                                vy as int,
                                vz as int,
                                x as int,
                                y as int,
                                dz,
                            ),
                        forall|a: int, b: int, c: int|
                            #[trigger] neighbor_map_contents(map).contains_key((a, b, c)) ==> (-1
                                <= a < x && -1 <= b <= 1 && -1 <= c <= 1) || (a == x && -1 <= b
                                < y && -1 <= c <= 1) || (a == x && b == y && -1 <= c < z),
                    decreases 2 - z,
                {
                    let ghost m0 = map;
                    let voxel = space.get_raw_voxel(vx + x, vy + y, vz + z);
                    let light = space.get_raw_light(vx + x, vy + y, vz + z);
                    neighbor_map_insert(&mut map, (x, y, z), voxel, light);
                    proof {
                        assert forall|dx: int, dy: int, dz: int|
                            -1 <= dx < x && -1 <= dy <= 1 && -1 <= dz <= 1 implies snap_entry(
                            map,
                            space,
                            vx as int,
                            vy as int,
                            vz as int,
                            dx,
                            dy,
                            dz,
                        ) by {
                            assert(snap_entry(m0, space, vx as int, vy as int, vz as int, dx, dy, dz));
                        }
                        assert forall|dy: int, dz: int|
                            -1 <= dy < y && -1 <= dz <= 1 implies snap_entry(
                            map,
                            space,
                            vx as int,
                            vy as int,
                            vz as int,
                            x as int,
                            dy,
                            dz,
                        ) by {
                            assert(snap_entry(m0, space, vx as int, vy as int, vz as int, x as int, dy, dz));
                        }
                        assert forall|dz: int|
                            -1 <= dz < z + 1 implies snap_entry(
                            map,
                            space,
                            vx as int,
                            vy as int,
                            vz as int,
                            x as int,
                            y as int,
                            dz,
                        ) by {
                            if dz < z {
                                assert(snap_entry(m0, space, vx as int, vy as int, vz as int, x as int, y as int, dz));
                            }
                        }
                        assert forall|a: int, b: int, c: int| #[trigger] neighbor_map_contents(
                            map,
                        ).contains_key((a, b, c)) implies (-1 <= a < x && -1 <= b <= 1 && -1 <= c
                            <= 1) || (a == x && -1 <= b < y && -1 <= c <= 1) || (a == x && b == y
                            && -1 <= c < z + 1) by {
                            if !(a == x as int && b == y as int && c == z as int) {
                                assert(neighbor_map_contents(m0).contains_key((a, b, c)));
                            }
                        }
                    }
                    z = z + 1;
                }
                y = y + 1;
            }
            x = x + 1;
        }

        Self { center, map }
    }

    /// The block id the snapshot holds at an offset.
    pub fn get_voxel(&self, offset: &Vec3<i32>) -> (r: u32)
        ensures
            r == spec_id_of(self.raw_at(offset.0 as int, offset.1 as int, offset.2 as int).0),
    {
        let value = match neighbor_map_get(&self.map, (offset.0, offset.1, offset.2)) {
            Some(v) => v,
            None => (0, 0),
        };
        BlockUtils::extract_id(value.0)
    }

    /// The rotation the snapshot holds at an offset. The snapshot's
    /// voxel there must be well formed: its rotation-axis field holds a
    /// code in 0..=5, as every voxel written by this crate does.
    pub fn get_rotation(&self, offset: &Vec3<i32>) -> (r: BlockRotation)
        requires
            spec_axis_of(self.raw_at(offset.0 as int, offset.1 as int, offset.2 as int).0) <= 5,
        ensures
            ({
                let raw = self.raw_at(offset.0 as int, offset.1 as int, offset.2 as int).0;
                r == spec_encode(spec_axis_of(raw), spec_y_rotation_of(raw))
            }),
    {
        let value = match neighbor_map_get(&self.map, (offset.0, offset.1, offset.2)) {
            Some(v) => v,
            None => (0, 0),
        };
        proof {
            assert(spec_axis_of(0u32) == 0) by (bit_vector);
        }
        BlockUtils::extract_rotation(value.0)
    }

    /// The stage the snapshot holds at an offset.
    pub fn get_stage(&self, offset: &Vec3<i32>) -> (r: u32)
        ensures
            r == spec_stage_of(self.raw_at(offset.0 as int, offset.1 as int, offset.2 as int).0),
    {
        let value = match neighbor_map_get(&self.map, (offset.0, offset.1, offset.2)) {
            Some(v) => v,
            None => (0, 0),
        };
        BlockUtils::extract_stage(value.0)
    }

    /// The sunlight level the snapshot holds at an offset.
    pub fn get_sunlight(&self, offset: &Vec3<i32>) -> (r: u32)
        ensures
            r == spec_sunlight_of(self.raw_at(offset.0 as int, offset.1 as int, offset.2 as int).1),
    {
        let value = match neighbor_map_get(&self.map, (offset.0, offset.1, offset.2)) {
            Some(v) => v,
            None => (0, 0),
        };
        LightUtils::extract_sunlight(value.1)
    }

    /// The torch light level of a colour channel at an offset. Sunlight
    /// is not a torch channel: asking for it is a misuse and is
    /// signalled as such.
    pub fn get_torch_light(&self, offset: &Vec3<i32>, color: &LightColor) -> (r: Result<
        u32,
        BlockError,
    >)
        ensures
            *color is Sunlight <==> r is Err,
            r is Err ==> r == Err::<u32, BlockError>(BlockError::SunlightIsNotTorch),
            !(*color is Sunlight) ==> r == Ok::<u32, BlockError>(
                spec_torch_light_of(
                    self.raw_at(offset.0 as int, offset.1 as int, offset.2 as int).1,
                    *color,
                ),
            ),
    {
        let value = match neighbor_map_get(&self.map, (offset.0, offset.1, offset.2)) {
            Some(v) => v,
            None => (0, 0),
        };
        match color {
            LightColor::Red => Ok(LightUtils::extract_red_light(value.1)),
            LightColor::Green => Ok(LightUtils::extract_green_light(value.1)),
            LightColor::Blue => Ok(LightUtils::extract_blue_light(value.1)),
            LightColor::Sunlight => Err(BlockError::SunlightIsNotTorch),
        }
    }
}

} // verus!
