use voxel_core::{
    BlockError, BlockRotation, Vec3, AABB, FIXED_ONE, NX_ROTATION, NY_ROTATION, NZ_ROTATION,
    PX_ROTATION, PY_ROTATION, PZ_ROTATION,
};

#[test]
fn encode_decode_round_trip() {
    for axis in 0u32..6 {
        for segment in 0u32..16 {
            let rotation = BlockRotation::encode(axis, segment).unwrap();
            assert_eq!(BlockRotation::decode(&rotation), (axis, segment));
        }
    }
}

#[test]
fn encode_rejects_unknown_axis() {
    assert_eq!(BlockRotation::encode(6, 0), Err(BlockError::UnknownRotation));
    assert_eq!(BlockRotation::encode(100, 3), Err(BlockError::UnknownRotation));
}

#[test]
fn decode_reduces_whole_turns() {
    let rotation = BlockRotation::encode(PY_ROTATION, 20).unwrap();
    assert_eq!(BlockRotation::decode(&rotation), (PY_ROTATION, 4));
}

#[test]
fn encode_axis_codes() {
    assert_eq!(BlockRotation::encode(PY_ROTATION, 0), Ok(BlockRotation::PY(0)));
    assert_eq!(BlockRotation::encode(NY_ROTATION, 0), Ok(BlockRotation::NY(0)));
    assert_eq!(BlockRotation::encode(PX_ROTATION, 0), Ok(BlockRotation::PX(0)));
    assert_eq!(BlockRotation::encode(NX_ROTATION, 0), Ok(BlockRotation::NX(0)));
    assert_eq!(BlockRotation::encode(PZ_ROTATION, 0), Ok(BlockRotation::PZ(0)));
    assert_eq!(BlockRotation::encode(NZ_ROTATION, 0), Ok(BlockRotation::NZ(0)));
}

#[test]
fn upright_identity_leaves_points_alone() {
    let rotation = BlockRotation::PY(0);
    for &y_rotate in &[false, true] {
        for &translate in &[false, true] {
            let mut node = Vec3(12345, -678, FIXED_ONE);
            rotation.rotate_node(&mut node, y_rotate, translate);
            assert_eq!(node, Vec3(12345, -678, FIXED_ONE));
        }
    }
}

#[test]
fn nx_quarter_turn_moves_the_unit_corner() {
    let rotation = BlockRotation::NX(0);
    let mut node = Vec3(FIXED_ONE, FIXED_ONE, FIXED_ONE);
    rotation.rotate_node(&mut node, true, true);
    assert_eq!(node, Vec3(0, FIXED_ONE, FIXED_ONE));

    let mut origin = Vec3(0, 0, 0);
    rotation.rotate_node(&mut origin, true, true);
    assert_eq!(origin, Vec3(FIXED_ONE, 0, 0));
}

#[test]
fn upright_identity_keeps_transparency() {
    let rotation = BlockRotation::PY(0);
    for bits in 0u32..64 {
        let flags = [
            bits & 1 != 0,
            bits & 2 != 0,
            bits & 4 != 0,
            bits & 8 != 0,
            bits & 16 != 0,
            bits & 32 != 0,
        ];
        assert_eq!(rotation.rotate_transparency(flags), flags);
    }
}

#[test]
fn nx_rotation_permutes_transparency() {
    let rotation = BlockRotation::NX(0);
    let flags = [true, false, false, false, false, false];
    // The probe that lands on the positive y axis came from px, so the
    // px flag moves to the py slot; slots whose probe lands nowhere
    // named fall back to the nz flag.
    assert_eq!(rotation.rotate_transparency(flags), [false, true, false, false, false, false]);
}

#[test]
fn rotated_unit_box_keeps_its_volume() {
    let unit = AABB {
        min_x: 0,
        min_y: 0,
        min_z: 0,
        max_x: FIXED_ONE,
        max_y: FIXED_ONE,
        max_z: FIXED_ONE,
    };
    let rotation = BlockRotation::NX(0);
    for &y_rotate in &[false, true] {
        for &translate in &[false, true] {
            let rotated = rotation.rotate_aabb(&unit, y_rotate, translate);
            assert!(rotated.min_x <= rotated.max_x);
            assert!(rotated.min_y <= rotated.max_y);
            assert!(rotated.min_z <= rotated.max_z);
            assert_eq!(rotated.max_x - rotated.min_x, FIXED_ONE);
            assert_eq!(rotated.max_y - rotated.min_y, FIXED_ONE);
            assert_eq!(rotated.max_z - rotated.min_z, FIXED_ONE);
        }
    }
}

#[test]
fn nx_translated_unit_box_reoccupies_the_cell() {
    let unit = AABB {
        min_x: 0,
        min_y: 0,
        min_z: 0,
        max_x: FIXED_ONE,
        max_y: FIXED_ONE,
        max_z: FIXED_ONE,
    };
    let rotated = BlockRotation::NX(0).rotate_aabb(&unit, false, true);
    assert_eq!(rotated, unit);
}

#[test]
fn y_spun_unit_box_tracks_its_corners() {
    let unit = AABB {
        min_x: 0,
        min_y: 0,
        min_z: 0,
        max_x: FIXED_ONE,
        max_y: FIXED_ONE,
        max_z: FIXED_ONE,
    };
    // A quarter-turn y-spin carries the unit box onto itself.
    let rotated = BlockRotation::PY(4).rotate_aabb(&unit, true, true);
    assert_eq!(rotated, unit);
}

#[test]
fn aabb_builder_defaults_to_the_unit_cell() {
    let built = AABB::new().build();
    assert_eq!(
        built,
        AABB {
            min_x: 0,
            min_y: 0,
            min_z: 0,
            max_x: FIXED_ONE,
            max_y: FIXED_ONE,
            max_z: FIXED_ONE,
        }
    );
    let shifted = AABB::new().min_y(100).max_y(200).build();
    assert_eq!(shifted.min_y, 100);
    assert_eq!(shifted.max_y, 200);
    assert_eq!(shifted.max_x, FIXED_ONE);
}

#[test]
fn sub_rotation_uses_the_fixed_point_table() {
    // One sixteenth of a turn about the cell centre, computed in exact
    // fixed-point arithmetic with truncating division.
    let rotation = BlockRotation::PY(1);
    let mut node = Vec3(FIXED_ONE, 0, FIXED_ONE);
    rotation.rotate_node(&mut node, true, false);
    assert_eq!(node, Vec3(75581, 0, 50501));
}
