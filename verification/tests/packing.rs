use voxel_core::{
    BlockError, BlockRotation, BlockUtils, LightColor, LightUtils, Neighbors, Vec3, VoxelStore,
    NX_ROTATION,
};

#[test]
fn id_field_round_trips() {
    let voxel = BlockUtils::insert_id(0, 1234);
    assert_eq!(BlockUtils::extract_id(voxel), 1234);
    let rewritten = BlockUtils::insert_id(voxel, 0xFFFF);
    assert_eq!(BlockUtils::extract_id(rewritten), 0xFFFF);
    assert_eq!(BlockUtils::extract_stage(rewritten), 0);
}

#[test]
fn stage_field_round_trips() {
    let voxel = BlockUtils::insert_stage(BlockUtils::insert_id(0, 7), 255);
    assert_eq!(BlockUtils::extract_stage(voxel), 255);
    assert_eq!(BlockUtils::extract_id(voxel), 7);
}

#[test]
fn rotation_field_round_trips() {
    let rotation = BlockRotation::encode(NX_ROTATION, 9).unwrap();
    let voxel = BlockUtils::insert_rotation(BlockUtils::insert_id(0, 42), &rotation);
    assert_eq!(BlockUtils::extract_rotation(voxel), rotation);
    assert_eq!(BlockUtils::extract_id(voxel), 42);
}

#[test]
fn light_channels_are_independent() {
    let mut light = LightUtils::insert_sunlight(0, 15);
    light = LightUtils::insert_red_light(light, 1);
    light = LightUtils::insert_green_light(light, 2);
    light = LightUtils::insert_blue_light(light, 3);
    assert_eq!(LightUtils::extract_sunlight(light), 15);
    assert_eq!(LightUtils::extract_red_light(light), 1);
    assert_eq!(LightUtils::extract_green_light(light), 2);
    assert_eq!(LightUtils::extract_blue_light(light), 3);
    let light = LightUtils::insert_red_light(light, 9);
    assert_eq!(LightUtils::extract_red_light(light), 9);
    assert_eq!(LightUtils::extract_blue_light(light), 3);
}

fn sample_world() -> VoxelStore {
    let mut world = VoxelStore::new();
    let rotation = BlockRotation::encode(NX_ROTATION, 3).unwrap();
    let voxel = BlockUtils::insert_stage(
        BlockUtils::insert_rotation(BlockUtils::insert_id(0, 77), &rotation),
        9,
    );
    let light = LightUtils::insert_red_light(LightUtils::insert_sunlight(0, 12), 5);
    world.set_raw(Vec3(1, 0, 0), voxel, light);
    world
}

#[test]
fn neighbors_cache_the_world() {
    let world = sample_world();
    let cache = Neighbors::populate(Vec3(0, 0, 0), &world);
    assert_eq!(cache.get_voxel(&Vec3(1, 0, 0)), 77);
    assert_eq!(cache.get_stage(&Vec3(1, 0, 0)), 9);
    assert_eq!(
        cache.get_rotation(&Vec3(1, 0, 0)),
        BlockRotation::encode(NX_ROTATION, 3).unwrap()
    );
    assert_eq!(cache.get_sunlight(&Vec3(1, 0, 0)), 12);
    assert_eq!(cache.get_torch_light(&Vec3(1, 0, 0), &LightColor::Red), Ok(5));
    assert_eq!(cache.get_torch_light(&Vec3(1, 0, 0), &LightColor::Green), Ok(0));
    // An unset neighbour reads as the all-zero packed value.
    assert_eq!(cache.get_voxel(&Vec3(0, 1, 0)), 0);
    assert_eq!(cache.get_sunlight(&Vec3(0, 1, 0)), 0);
}

#[test]
fn sunlight_is_not_a_torch_channel() {
    let world = sample_world();
    let cache = Neighbors::populate(Vec3(0, 0, 0), &world);
    assert_eq!(
        cache.get_torch_light(&Vec3(1, 0, 0), &LightColor::Sunlight),
        Err(BlockError::SunlightIsNotTorch)
    );
}

#[test]
fn newest_write_wins() {
    let mut world = VoxelStore::new();
    world.set_raw(Vec3(2, 2, 2), BlockUtils::insert_id(0, 5), 0);
    world.set_raw(Vec3(2, 2, 2), BlockUtils::insert_id(0, 6), 0);
    let cache = Neighbors::populate(Vec3(2, 2, 2), &world);
    assert_eq!(cache.get_voxel(&Vec3(0, 0, 0)), 6);
}
