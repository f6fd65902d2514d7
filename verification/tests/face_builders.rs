use voxel_core::{BlockFaces, BlockRotation, Vec2, Vec3, FIXED_HALF, FIXED_ONE, SIX_FACES_PX};

#[test]
fn six_faces_default_shape() {
    let faces = BlockFaces::six_faces().build();
    assert_eq!(faces.faces.len(), 6);
    let names: Vec<&str> = faces.faces.iter().map(|f| f.name.as_str()).collect();
    assert_eq!(names, vec!["px", "py", "pz", "nx", "ny", "nz"]);
    for face in &faces.faces {
        assert_eq!(face.corners.len(), 4);
        assert!(!face.independent);
        assert!(!face.isolated);
    }
    assert_eq!(faces.faces[0].dir, Vec3(1, 0, 0));
    assert_eq!(faces.faces[1].dir, Vec3(0, 1, 0));
    assert_eq!(faces.faces[2].dir, Vec3(0, 0, 1));
    assert_eq!(faces.faces[3].dir, Vec3(-1, 0, 0));
    assert_eq!(faces.faces[4].dir, Vec3(0, -1, 0));
    assert_eq!(faces.faces[5].dir, Vec3(0, 0, -1));
}

#[test]
fn y_faces_take_their_texture_from_x_and_z() {
    let faces = BlockFaces::six_faces()
        .uv_scale_x(2 * FIXED_ONE)
        .uv_scale_y(7777)
        .uv_scale_z(3 * FIXED_ONE)
        .uv_offset_x(FIXED_ONE)
        .uv_offset_y(8888)
        .uv_offset_z(FIXED_HALF)
        .build();
    let py = &faces.faces[1];
    assert_eq!(py.corners[0].uv, Vec2(FIXED_ONE + 2 * FIXED_ONE, FIXED_HALF + 3 * FIXED_ONE));
    assert_eq!(py.corners[1].uv, Vec2(FIXED_ONE, FIXED_HALF + 3 * FIXED_ONE));
    assert_eq!(py.corners[2].uv, Vec2(FIXED_ONE + 2 * FIXED_ONE, FIXED_HALF));
    assert_eq!(py.corners[3].uv, Vec2(FIXED_ONE, FIXED_HALF));
    let ny = &faces.faces[4];
    assert_eq!(ny.corners[0].uv, Vec2(FIXED_ONE + 2 * FIXED_ONE, FIXED_HALF));
    assert_eq!(ny.corners[1].uv, Vec2(FIXED_ONE, FIXED_HALF));
    assert_eq!(ny.corners[2].uv, Vec2(FIXED_ONE + 2 * FIXED_ONE, FIXED_HALF + 3 * FIXED_ONE));
    assert_eq!(ny.corners[3].uv, Vec2(FIXED_ONE, FIXED_HALF + 3 * FIXED_ONE));
}

#[test]
fn six_faces_geometry_scales_and_offsets() {
    let faces = BlockFaces::six_faces()
        .scale_x(FIXED_HALF)
        .offset_y(FIXED_ONE)
        .build();
    let px = &faces.faces[0];
    assert_eq!(px.corners[0].pos, Vec3(FIXED_HALF, FIXED_ONE + FIXED_ONE, FIXED_ONE));
    assert_eq!(px.corners[3].pos, Vec3(FIXED_HALF, FIXED_ONE, 0));
}

#[test]
fn six_faces_names_are_assembled() {
    let faces = BlockFaces::six_faces().prefix("oak").concat("-").suffix("top").build();
    assert_eq!(faces.faces[0].name, "oak-px-top");
    assert_eq!(faces.faces[5].name, "oak-nz-top");
}

#[test]
fn independent_faces_use_their_own_texture_square() {
    let faces = BlockFaces::six_faces().independent_at(SIX_FACES_PX).build();
    let px = &faces.faces[0];
    assert!(px.independent);
    assert_eq!(px.corners[0].uv, Vec2(0, FIXED_ONE));
    assert_eq!(px.corners[1].uv, Vec2(0, 0));
    assert_eq!(px.corners[2].uv, Vec2(FIXED_ONE, FIXED_ONE));
    assert_eq!(px.corners[3].uv, Vec2(FIXED_ONE, 0));
    let py = &faces.faces[1];
    assert!(!py.independent);
}

#[test]
fn rotated_six_faces_come_out_pre_oriented() {
    let rotation = BlockRotation::NX(0);
    let faces = BlockFaces::six_faces().with_rotation(&rotation).build();
    let mut expected = Vec3(FIXED_ONE, FIXED_ONE, FIXED_ONE);
    rotation.rotate_node(&mut expected, true, true);
    assert_eq!(faces.faces[0].corners[0].pos, expected);
}

#[test]
fn diagonal_faces_form_the_cross() {
    let faces = BlockFaces::diagonal_faces().build();
    assert_eq!(faces.faces.len(), 2);
    assert_eq!(faces.faces[0].name, "one");
    assert_eq!(faces.faces[1].name, "two");
    assert_eq!(faces.faces[0].corners[0].pos, Vec3(0, FIXED_ONE, 0));
    assert_eq!(faces.faces[0].corners[2].pos, Vec3(FIXED_ONE, FIXED_ONE, FIXED_ONE));
    assert_eq!(faces.faces[1].corners[0].pos, Vec3(FIXED_ONE, FIXED_ONE, 0));
    assert_eq!(faces.faces[1].corners[2].pos, Vec3(0, FIXED_ONE, FIXED_ONE));
}

#[test]
fn diagonal_faces_split_to_four() {
    let faces = BlockFaces::diagonal_faces().to_four().build();
    assert_eq!(faces.faces.len(), 4);
    let names: Vec<&str> = faces.faces.iter().map(|f| f.name.as_str()).collect();
    assert_eq!(names, vec!["one1", "one2", "two1", "two2"]);
    assert_eq!(faces.faces[0].corners[2].pos, Vec3(FIXED_HALF, FIXED_ONE, FIXED_HALF));
    assert_eq!(faces.faces[0].corners[2].uv, Vec2(FIXED_HALF, FIXED_ONE));
}

#[test]
fn diagonal_scale_centres_the_cross() {
    let faces = BlockFaces::diagonal_faces().scale_horizontal(FIXED_HALF).build();
    // The cross starts a quarter cell in and ends a quarter cell short.
    let quarter = FIXED_ONE / 4;
    assert_eq!(faces.faces[0].corners[0].pos, Vec3(quarter, FIXED_ONE, quarter));
    assert_eq!(faces.faces[0].corners[2].pos, Vec3(FIXED_ONE - quarter, FIXED_ONE, FIXED_ONE - quarter));
}

#[test]
fn face_lists_join_in_order() {
    let six = BlockFaces::six_faces().build();
    let cross = BlockFaces::diagonal_faces().build();
    let joined = six.join(cross);
    assert_eq!(joined.faces.len(), 8);
    assert_eq!(joined.faces[6].name, "one");
}

#[test]
fn face_list_flags_can_be_set_after_build() {
    let faces = BlockFaces::six_faces().build().independent_at(1).isolated_at_all(vec![2, 3]);
    assert!(faces.faces[1].independent);
    assert!(faces.faces[2].isolated);
    assert!(faces.faces[3].isolated);
    assert!(!faces.faces[0].independent);
    // An index past the end changes nothing.
    let same = BlockFaces::six_faces().build().independent_at(99);
    assert!(same.faces.iter().all(|f| !f.independent));
}

#[test]
fn auto_uv_offset_follows_the_geometry() {
    let faces = BlockFaces::six_faces()
        .scale_x(FIXED_HALF)
        .offset_z(FIXED_HALF)
        .uv_scale_x(9999)
        .uv_offset_z(8888)
        .auto_uv_offset(true)
        .build();
    let py = &faces.faces[1];
    // The texture coordinates come from the geometry scale and offset,
    // not from the explicit texture settings.
    assert_eq!(py.corners[0].uv, Vec2(FIXED_HALF, FIXED_HALF + FIXED_ONE));
    assert_eq!(py.corners[3].uv, Vec2(0, FIXED_HALF));
}
