//! Packed voxel values.
//!
//! A voxel is a single `u32` laid out, from the lowest bit up, as:
//! - bits 0..=15: block id,
//! - bits 16..=19: rotation axis code,
//! - bits 20..=23: y-axis sub-rotation segment,
//! - bits 24..=31: growth/animation stage.
//!
//! The masks below clear one field so that it can be rewritten without
//! touching the others.

use vstd::prelude::*;

use crate::rotation::{axis_code_of, spec_encode, y_count_of, BlockRotation};

verus! {

/// Mask that clears the rotation-axis field (bits 16..=19).
pub const ROTATION_MASK: u32 = 0xFFF0FFFF;

/// Mask that clears the y-rotation segment field (bits 20..=23).
pub const Y_ROTATION_MASK: u32 = 0xFF0FFFFF;

/// Mask that clears the stage field (bits 24..=31).
pub const STAGE_MASK: u32 = 0x00FFFFFF;

/// The block id stored in a packed voxel value.
pub open spec fn spec_id_of(voxel: u32) -> u32 {
    voxel & 0xFFFF
}

/// The rotation-axis code stored in a packed voxel value.
pub open spec fn spec_axis_of(voxel: u32) -> u32 {
    (voxel >> 16) & 0xF
}

/// The y-rotation segment stored in a packed voxel value.
pub open spec fn spec_y_rotation_of(voxel: u32) -> u32 {
    (voxel >> 20) & 0xF
}

/// The stage stored in a packed voxel value.
pub open spec fn spec_stage_of(voxel: u32) -> u32 {
    (voxel >> 24) & 0xFF
}

/// Static helpers that read and write the fields of a packed voxel value.
pub struct BlockUtils;

impl BlockUtils {
    /// Extract the block id (bits 0..=15) of a packed voxel value.
    pub fn extract_id(voxel: u32) -> (r: u32)
        ensures
            r == spec_id_of(voxel),
            r <= 0xFFFF,
    {
        proof {
            assert(voxel & 0xFFFF <= 0xFFFF) by (bit_vector);
        }
        voxel & 0xFFFF
    }

    /// Overwrite the block id field, leaving the other fields unchanged.
    pub fn insert_id(voxel: u32, id: u32) -> (r: u32)
        ensures
            spec_id_of(r) == id & 0xFFFF,
            spec_axis_of(r) == spec_axis_of(voxel),
            spec_y_rotation_of(r) == spec_y_rotation_of(voxel),
            spec_stage_of(r) == spec_stage_of(voxel),
    {
        proof {
            assert({
                &&& ((voxel & 0xFFFF0000) | (id & 0xFFFF)) & 0xFFFF == id & 0xFFFF
                &&& (((voxel & 0xFFFF0000) | (id & 0xFFFF)) >> 16) & 0xF == (voxel >> 16) & 0xF
                &&& (((voxel & 0xFFFF0000) | (id & 0xFFFF)) >> 20) & 0xF == (voxel >> 20) & 0xF
                &&& (((voxel & 0xFFFF0000) | (id & 0xFFFF)) >> 24) & 0xFF == (voxel >> 24) & 0xFF
            }) by (bit_vector);
        }
        (voxel & 0xFFFF0000) | (id & 0xFFFF)
    }

    /// Extract the rotation stored in a packed voxel value. A voxel
    /// whose axis field holds a code above 5 is malformed and is left
    /// out by the precondition: only `insert_rotation` and hand-packed
    /// values exist, and both write codes 0..=5.
    pub fn extract_rotation(voxel: u32) -> (r: BlockRotation)
        requires
            spec_axis_of(voxel) <= 5,
        ensures
            r == spec_encode(spec_axis_of(voxel), spec_y_rotation_of(voxel)),
    {
        proof {
            assert((voxel >> 16) & 0xF <= 0xF) by (bit_vector);
            assert((voxel >> 20) & 0xF <= 0xF) by (bit_vector);
        }
        let axis = (voxel >> 16) & 0xF;
        let y = (voxel >> 20) & 0xF;
        match BlockRotation::encode(axis, y) {
            Ok(r) => r,
            Err(_) => unreached(),
        }
    }

    /// Overwrite the rotation axis and y-rotation fields from a
    /// rotation, leaving id and stage unchanged. The y-rotation count is
    /// stored reduced to its segment in 0..=15, as `decode` reduces it.
    pub fn insert_rotation(voxel: u32, rotation: &BlockRotation) -> (r: u32)
        ensures
            spec_axis_of(r) == axis_code_of(*rotation),
            spec_y_rotation_of(r) == y_count_of(*rotation) % 16,
            spec_id_of(r) == spec_id_of(voxel),
            spec_stage_of(r) == spec_stage_of(voxel),
    {
        let (axis, y) = BlockRotation::decode(rotation);
        proof {
            let axis = axis_code_of(*rotation);
            let y = (y_count_of(*rotation) % 16) as u32;
            assert(axis <= 5 && y < 16 ==> {
                &&& (((voxel & 0xFFF0FFFF & 0xFF0FFFFF) | (axis << 16) | (y << 20)) >> 16) & 0xF
                    == axis
                &&& (((voxel & 0xFFF0FFFF & 0xFF0FFFFF) | (axis << 16) | (y << 20)) >> 20) & 0xF
                    == y
                &&& ((voxel & 0xFFF0FFFF & 0xFF0FFFFF) | (axis << 16) | (y << 20)) & 0xFFFF
                    == voxel & 0xFFFF
                &&& (((voxel & 0xFFF0FFFF & 0xFF0FFFFF) | (axis << 16) | (y << 20)) >> 24) & 0xFF
                    == (voxel >> 24) & 0xFF
            }) by (bit_vector);
        }
        (voxel & ROTATION_MASK & Y_ROTATION_MASK) | (axis << 16) | (y << 20)
    }

    /// Extract the stage (bits 24..=31) of a packed voxel value.
    pub fn extract_stage(voxel: u32) -> (r: u32)
        ensures
            r == spec_stage_of(voxel),
            r <= 0xFF,
    {
        proof {
            assert((voxel >> 24) & 0xFF <= 0xFF) by (bit_vector);
        }
        (voxel >> 24) & 0xFF
    }

    /// Overwrite the stage field, leaving the other fields unchanged.
    pub fn insert_stage(voxel: u32, stage: u32) -> (r: u32)
        requires
            stage <= 0xFF,
        ensures
            spec_stage_of(r) == stage,
            spec_id_of(r) == spec_id_of(voxel),
            spec_axis_of(r) == spec_axis_of(voxel),
            spec_y_rotation_of(r) == spec_y_rotation_of(voxel),
    {
        proof {
            assert(stage <= 0xFF ==> {
                &&& (((voxel & 0x00FFFFFF) | (stage << 24)) >> 24) & 0xFF == stage
                &&& ((voxel & 0x00FFFFFF) | (stage << 24)) & 0xFFFF == voxel & 0xFFFF
                &&& (((voxel & 0x00FFFFFF) | (stage << 24)) >> 16) & 0xF == (voxel >> 16) & 0xF
                &&& (((voxel & 0x00FFFFFF) | (stage << 24)) >> 20) & 0xF == (voxel >> 20) & 0xF
            }) by (bit_vector);
        }
        (voxel & STAGE_MASK) | (stage << 24)
    }
}

} // verus!
