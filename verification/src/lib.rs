//! Block definition and procedural geometry for a voxel world.
//!
//! A voxel is stored as a packed 32-bit value holding a block id, a
//! rotation axis, a y-axis sub-rotation segment and a growth stage.
//! This crate defines that packing, the 24-orientation rotation space a
//! block may occupy, the face and bounding-box geometry that a block
//! presents under rotation, and a small rule engine that lets a block's
//! appearance depend on its neighbours.

mod aabb;
mod access;
mod audio;
mod block;
mod database;
mod faces;
mod lights;
mod logging;
mod math;
mod metrics;
mod neighbors;
mod network;
mod rotation;
mod validation;
mod voxel;

pub use aabb::{
    aabb_bounded, aabb_valid, aabb_volume, lemma_rotate_aabb_nx_unit, max2, min2, spec_corner,
    spec_rotate_aabb, spec_spun_corner, spec_tracks_corners, AABB, AABBBuilder,
};
pub use access::{spec_store_lookup, VoxelAccess, VoxelEntry, VoxelStore, VoxelUpdate};
pub use audio::{get_sound_duration, AudioFormat};
pub use block::{
    evaluate_dynamic_pattern, evaluate_rule, lemma_torch_light_static_fallback,
    lemma_torch_light_sunlight_zero, lemma_transparency_union, parts_in_bounds,
    patterns_in_bounds, rule_in_bounds, spec_any_part_lights, spec_any_pattern_lights,
    spec_combined_transparent, spec_is_light_at, spec_matching_aabbs, spec_matching_faces,
    spec_part_light_value, spec_rule_holds, spec_selected_aabbs, spec_selected_faces,
    spec_simple_rule_holds, spec_static_torch, spec_torch_light_at, Block, BlockActiveTicker,
    BlockActiveUpdater, BlockBuilder, BlockConditionalPart, BlockDynamicFn, BlockDynamicPattern,
    BlockRule, BlockRuleLogic, BlockSimpleRule, Registry, YRotatableSegments,
};
pub use database::{DatabaseConfig, DatabaseConnection};
pub use faces::{
    diagonal_in_range, face_view, faces_view, lemma_six_faces_shape, lemma_six_faces_y_uv_from_xz,
    six_in_range, spec_diagonal_faces, spec_face_name, spec_place, spec_six_faces, BlockFace,
    BlockFaces, CornerData, DiagonalFacesBuilder, FaceModel, SixFacesBuilder, MAX_FACE_COORD, UV,
    SIX_FACES_NX, SIX_FACES_NY, SIX_FACES_NZ, SIX_FACES_PX, SIX_FACES_PY, SIX_FACES_PZ,
};
pub use lights::{
    spec_blue_light_of, spec_green_light_of, spec_red_light_of, spec_sunlight_of,
    spec_torch_light_of, LightColor, LightUtils,
};
pub use logging::{LogLevel, Logger};
pub use math::{bounded3, tdiv, Vec2, Vec3, FIXED_HALF, FIXED_ONE, MAX_COORD};
pub use metrics::MetricType;
pub use neighbors::{neighbor_map_contents, snap_entry, NeighborMap, Neighbors};
pub use network::connect_server;
pub use rotation::{
    axis_code_of, lemma_encode_decode_round_trip, lemma_rotate_node_upright_identity,
    lemma_rotate_transparency_upright_identity, seg_cos, seg_sin, spec_encode, spec_pick_flag,
    spec_rotate_node, spec_rotate_transparency, spec_rotate_x, spec_rotate_y, spec_rotate_z,
    spec_seg_cos, spec_seg_sin, spec_y_spin, y_count_of, BlockError, BlockRotation, NX_ROTATION,
    NY_ROTATION, NZ_ROTATION, PX_ROTATION, PY_ROTATION, PZ_ROTATION, Y_ROT_SEGMENTS,
};
pub use validation::{
    spec_is_hex_digit, spec_valid_color_hex, spec_valid_username, unicode_alphanumeric,
    validate_color_hex, validate_username,
};
pub use voxel::{
    spec_axis_of, spec_id_of, spec_stage_of, spec_y_rotation_of, BlockUtils, ROTATION_MASK,
    STAGE_MASK, Y_ROTATION_MASK,
};
