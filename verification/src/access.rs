//! The voxel-access capability.
//!
//! Everything this crate reads from the world comes through
//! `VoxelAccess`: random read access to the packed voxel and light
//! values at arbitrary world coordinates. World storage implements it;
//! `VoxelStore`, a small association list, is the implementation used
//! by this crate's own tests and proofs.

use vstd::prelude::*;

use crate::math::Vec3;
use crate::rotation::{spec_encode, BlockRotation};
use crate::voxel::{spec_axis_of, spec_id_of, spec_stage_of, spec_y_rotation_of, BlockUtils};

verus! {

/// One voxel write: the position and the new packed voxel value.
#[derive(Debug, Clone, Copy, PartialEq, Eq, Structural)]
pub struct VoxelUpdate {
    /// World position of the write.
    pub pos: Vec3<i32>,
    /// The packed voxel value to write.
    pub voxel: u32,
}

/// Random read access to the world's packed voxel and light values.
/// All reads are total: a coordinate the world does not hold reads as
/// zero (the packed encoding of air, unlit).
pub trait VoxelAccess {
    /// The packed voxel value the world holds at a coordinate.
    spec fn spec_raw_voxel(&self, x: int, y: int, z: int) -> u32;

    /// The packed light value the world holds at a coordinate.
    spec fn spec_raw_light(&self, x: int, y: int, z: int) -> u32;

    /// Read the packed voxel value at a coordinate.
    fn get_raw_voxel(&self, vx: i32, vy: i32, vz: i32) -> (r: u32)
        ensures
            r == self.spec_raw_voxel(vx as int, vy as int, vz as int),
    ;

    /// Read the packed light value at a coordinate.
    fn get_raw_light(&self, vx: i32, vy: i32, vz: i32) -> (r: u32)
        ensures
            r == self.spec_raw_light(vx as int, vy as int, vz as int),
    ;

    /// Read the block id at a coordinate.
    fn get_voxel(&self, vx: i32, vy: i32, vz: i32) -> (r: u32)
        ensures
            r == spec_id_of(self.spec_raw_voxel(vx as int, vy as int, vz as int)),
    ;

    /// The world is well formed: every stored voxel's rotation-axis
    /// field holds a code in 0..=5, the invariant of the packed
    /// encoding.
    open spec fn wf(&self) -> bool {
        forall|x: int, y: int, z: int|
            spec_axis_of(#[trigger] self.spec_raw_voxel(x, y, z)) <= 5
    }

    /// The rotation stored at a coordinate of the world.
    open spec fn spec_rotation_at(&self, x: int, y: int, z: int) -> BlockRotation {
        spec_encode(
            spec_axis_of(self.spec_raw_voxel(x, y, z)),
            spec_y_rotation_of(self.spec_raw_voxel(x, y, z)),
        )
    }

    /// Read the rotation at a coordinate. The world must be well
    /// formed: every stored voxel's rotation-axis field holds a code in
    /// 0..=5.
    fn get_voxel_rotation(&self, vx: i32, vy: i32, vz: i32) -> (r: BlockRotation)
        requires
            self.wf(),
        ensures
            r == self.spec_rotation_at(vx as int, vy as int, vz as int),
    ;

    /// Read the stage at a coordinate.
    fn get_voxel_stage(&self, vx: i32, vy: i32, vz: i32) -> (r: u32)
        ensures
            r == spec_stage_of(self.spec_raw_voxel(vx as int, vy as int, vz as int)),
    ;
}

/// One entry of a `VoxelStore`: a position and its packed voxel and
/// light values.
#[derive(Debug, Clone, Copy, PartialEq, Eq, Structural)]
pub struct VoxelEntry {
    /// World position of the entry.
    pub pos: Vec3<i32>,
    /// The packed voxel value at the position.
    pub voxel: u32,
    /// The packed light value at the position.
    pub light: u32,
}

/// The first entry for a coordinate decides its packed values; a
/// coordinate with no entry reads as zero.
pub open spec fn spec_store_lookup(entries: Seq<VoxelEntry>, x: int, y: int, z: int) -> (u32, u32)
    decreases entries.len(),
{
    if entries.len() == 0 {
        (0u32, 0u32)
    } else if entries[0].pos.0 == x && entries[0].pos.1 == y && entries[0].pos.2 == z {
        (entries[0].voxel, entries[0].light)
    } else {
        spec_store_lookup(entries.drop_first(), x, y, z)
    }
}

/// A small world: an association list from positions to packed values,
/// newest write first. It exists so that the crate's own tests and
/// proofs have a `VoxelAccess` implementation to hand.
#[derive(Debug, Clone, PartialEq)]
pub struct VoxelStore {
    /// The entries, newest first.
    pub entries: Vec<VoxelEntry>,
}

impl VoxelStore {
    /// An empty world: every coordinate reads as zero.
    pub fn new() -> (r: Self)
        ensures
            r.entries@ =~= Seq::<VoxelEntry>::empty(),
    {
        Self { entries: Vec::new() }
    }

    /// Write a packed voxel and light value at a position. The
    /// rotation-axis field of the voxel must hold a code in 0..=5, so
    /// that the store stays well formed.
    pub fn set_raw(&mut self, pos: Vec3<i32>, voxel: u32, light: u32)
        requires
            spec_axis_of(voxel) <= 5,
        ensures
            final(self).entries@ == seq![VoxelEntry { pos, voxel, light }] + old(self).entries@,
    {
        self.entries.insert(0, VoxelEntry { pos, voxel, light });
        proof {
            assert(self.entries@ =~= seq![VoxelEntry { pos, voxel, light }] + old(self).entries@);
        }
    }

    /// Look up the packed values at a coordinate.
    fn lookup(&self, x: i32, y: i32, z: i32) -> (r: (u32, u32))
        ensures
            r == spec_store_lookup(self.entries@, x as int, y as int, z as int),
    {
        let mut i: usize = 0;
        proof {
            assert(self.entries@.skip(0) =~= self.entries@);
        }
        while i < self.entries.len()
            invariant
                i <= self.entries@.len(),
                spec_store_lookup(self.entries@.skip(i as int), x as int, y as int, z as int)
                    == spec_store_lookup(self.entries@, x as int, y as int, z as int),
            decreases self.entries@.len() - i,
        {
            let e = self.entries[i];
            proof {
                assert(self.entries@.skip(i as int).drop_first() =~= self.entries@.skip(
                    i as int + 1,
                ));
            }
            if e.pos.0 == x && e.pos.1 == y && e.pos.2 == z {
                return (e.voxel, e.light);
            }
            i = i + 1;
        }
        (0, 0)
    }

    /// Every entry's rotation-axis field holds a code in 0..=5.
    pub open spec fn entries_wf(&self) -> bool {
        forall|i: int|
            0 <= i < self.entries@.len() ==> spec_axis_of(#[trigger] self.entries@[i].voxel) <= 5
    }

    /// A store whose entries are all well formed is a well-formed
    /// world.
    pub proof fn lemma_wf(&self)
        requires
            self.entries_wf(),
        ensures
            self.wf(),
    {
        assert forall|x: int, y: int, z: int|
            spec_axis_of(#[trigger] self.spec_raw_voxel(x, y, z)) <= 5 by {
            Self::lemma_lookup_wf(self.entries@, x, y, z);
        }
    }

    /// The lookup of a well-formed entry list yields a well-formed
    /// voxel.
    proof fn lemma_lookup_wf(entries: Seq<VoxelEntry>, x: int, y: int, z: int)
        requires
            forall|i: int| 0 <= i < entries.len() ==> spec_axis_of(#[trigger] entries[i].voxel) <= 5,
        ensures
            spec_axis_of(spec_store_lookup(entries, x, y, z).0) <= 5,
        decreases entries.len(),
    {
        if entries.len() == 0 {
            assert(spec_axis_of(0u32) == 0) by (bit_vector);
        } else if entries[0].pos.0 == x && entries[0].pos.1 == y && entries[0].pos.2 == z {
        } else {
            Self::lemma_lookup_wf(entries.drop_first(), x, y, z);
        }
    }
}

impl VoxelAccess for VoxelStore {
    open spec fn spec_raw_voxel(&self, x: int, y: int, z: int) -> u32 {
        spec_store_lookup(self.entries@, x, y, z).0
    }

    open spec fn spec_raw_light(&self, x: int, y: int, z: int) -> u32 {
        spec_store_lookup(self.entries@, x, y, z).1
    }

    fn get_raw_voxel(&self, vx: i32, vy: i32, vz: i32) -> (r: u32) {
        self.lookup(vx, vy, vz).0
    }

    fn get_raw_light(&self, vx: i32, vy: i32, vz: i32) -> (r: u32) {
        self.lookup(vx, vy, vz).1
    }

    fn get_voxel(&self, vx: i32, vy: i32, vz: i32) -> (r: u32) {
        BlockUtils::extract_id(self.lookup(vx, vy, vz).0)
    }

    fn get_voxel_rotation(&self, vx: i32, vy: i32, vz: i32) -> (r: BlockRotation) {
        let raw = self.lookup(vx, vy, vz).0;
        proof {
            assert(spec_axis_of(self.spec_raw_voxel(vx as int, vy as int, vz as int)) <= 5);
        }
        BlockUtils::extract_rotation(raw)
    }

    fn get_voxel_stage(&self, vx: i32, vy: i32, vz: i32) -> (r: u32) {
        BlockUtils::extract_stage(self.lookup(vx, vy, vz).0)
    }
}

} // verus!
