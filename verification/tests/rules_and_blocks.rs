use voxel_core::{
    evaluate_dynamic_pattern, evaluate_rule, Block, BlockConditionalPart, BlockDynamicPattern,
    BlockError, BlockFace, BlockRule, BlockRuleLogic, BlockSimpleRule, BlockUtils, CornerData,
    LightColor, Registry, Vec2, Vec3, VoxelStore, UV,
};

fn world_with_five_at_px() -> VoxelStore {
    let mut world = VoxelStore::new();
    world.set_raw(Vec3(1, 0, 0), BlockUtils::insert_id(0, 5), 0);
    world
}

fn rule_five_at_px() -> BlockRule {
    BlockRule::Simple(BlockSimpleRule {
        offset: Vec3(1, 0, 0),
        id: Some(5),
        rotation: None,
        stage: None,
    })
}

#[test]
fn simple_rule_matches_the_neighbour() {
    let world = world_with_five_at_px();
    assert!(evaluate_rule(&rule_five_at_px(), &Vec3(0, 0, 0), &world));
}

#[test]
fn joint_negation_inverts_the_match() {
    let world = world_with_five_at_px();
    let negated = BlockRule::Combination {
        logic: BlockRuleLogic::Not,
        rules: vec![rule_five_at_px()],
    };
    assert!(!evaluate_rule(&negated, &Vec3(0, 0, 0), &world));
}

#[test]
fn conjunction_of_matches_holds() {
    let world = world_with_five_at_px();
    let both = BlockRule::Combination {
        logic: BlockRuleLogic::And,
        rules: vec![rule_five_at_px(), rule_five_at_px()],
    };
    assert!(evaluate_rule(&both, &Vec3(0, 0, 0), &world));
}

#[test]
fn empty_disjunction_fails() {
    let world = world_with_five_at_px();
    let empty = BlockRule::Combination { logic: BlockRuleLogic::Or, rules: vec![] };
    assert!(!evaluate_rule(&empty, &Vec3(0, 0, 0), &world));
}

#[test]
fn dont_care_fields_are_ignored() {
    let world = world_with_five_at_px();
    let blank = BlockRule::Simple(BlockSimpleRule {
        offset: Vec3(1, 0, 0),
        id: None,
        rotation: None,
        stage: None,
    });
    assert!(evaluate_rule(&blank, &Vec3(0, 0, 0), &world));
    let wrong_id = BlockRule::Simple(BlockSimpleRule {
        offset: Vec3(1, 0, 0),
        id: Some(6),
        rotation: None,
        stage: None,
    });
    assert!(!evaluate_rule(&wrong_id, &Vec3(0, 0, 0), &world));
}

fn named_face(name: &str) -> BlockFace {
    let corner = CornerData { pos: Vec3(0, 0, 0), uv: Vec2(0, 0) };
    BlockFace {
        name: name.to_owned(),
        independent: false,
        isolated: false,
        dir: Vec3(0, 1, 0),
        corners: [corner, corner, corner, corner],
        range: UV::default(),
    }
}

fn two_part_pattern() -> BlockDynamicPattern {
    BlockDynamicPattern {
        parts: vec![
            BlockConditionalPart {
                rule: BlockRule::Always,
                faces: vec![named_face("part_a")],
                aabbs: vec![],
                is_transparent: [true, false, false, false, false, false],
                red_light_level: None,
                green_light_level: None,
                blue_light_level: None,
            },
            BlockConditionalPart {
                rule: BlockRule::Always,
                faces: vec![],
                aabbs: vec![],
                is_transparent: [false, false, false, true, false, false],
                red_light_level: None,
                green_light_level: None,
                blue_light_level: None,
            },
        ],
    }
}

#[test]
fn transparency_unions_across_matching_parts() {
    let world = VoxelStore::new();
    let pattern = two_part_pattern();
    let (faces, aabbs, transparency) = evaluate_dynamic_pattern(&pattern, &Vec3(0, 0, 0), &world);
    assert_eq!(transparency, [true, false, false, true, false, false]);
    assert_eq!(faces.len(), 1);
    assert_eq!(faces[0].name, "part_a");
    assert!(aabbs.is_empty());
}

#[test]
fn geometry_takes_the_first_matching_faces() {
    let world = VoxelStore::new();
    let registry = Registry::new();
    let block = Block::new("panel").dynamic_patterns(vec![two_part_pattern()]).build();
    assert!(block.is_dynamic);
    let faces = block.get_faces(&Vec3(0, 0, 0), &world, &registry);
    assert_eq!(faces.len(), 1);
    assert_eq!(faces[0].name, "part_a");
}

#[test]
fn unmatched_patterns_fall_back_to_static_faces() {
    let world = VoxelStore::new();
    let registry = Registry::new();
    let never = BlockDynamicPattern {
        parts: vec![BlockConditionalPart {
            rule: BlockRule::Simple(BlockSimpleRule {
                offset: Vec3(0, 0, 0),
                id: Some(9),
                rotation: None,
                stage: None,
            }),
            faces: vec![named_face("hidden")],
            aabbs: vec![],
            is_transparent: [false; 6],
            red_light_level: None,
            green_light_level: None,
            blue_light_level: None,
        }],
    };
    let block = Block::new("shelf").dynamic_patterns(vec![never]).build();
    let faces = block.get_faces(&Vec3(0, 0, 0), &world, &registry);
    // The static default is the six cube faces.
    assert_eq!(faces.len(), 6);
    let aabbs = block.get_aabbs(&Vec3(0, 0, 0), &world, &registry);
    assert_eq!(aabbs.len(), 1);
}

#[test]
fn torch_light_of_a_static_block() {
    let world = VoxelStore::new();
    let block = Block::new("lamp").red_light_level(13).green_light_level(2).build();
    assert_eq!(block.get_torch_light_level_at(&Vec3(0, 0, 0), &world, &LightColor::Red), 13);
    assert_eq!(block.get_torch_light_level_at(&Vec3(0, 0, 0), &world, &LightColor::Green), 2);
    assert_eq!(block.get_torch_light_level_at(&Vec3(0, 0, 0), &world, &LightColor::Blue), 0);
    assert_eq!(block.get_torch_light_level(&LightColor::Red), 13);
}

#[test]
fn sunlight_torch_level_is_always_zero() {
    let world = VoxelStore::new();
    let lamp = Block::new("lamp").torch_light_level(9).build();
    assert_eq!(lamp.get_torch_light_level_at(&Vec3(0, 0, 0), &world, &LightColor::Sunlight), 0);
    assert_eq!(lamp.get_torch_light_level(&LightColor::Sunlight), 0);
    let patterned = Block::new("glow")
        .torch_light_level(9)
        .dynamic_patterns(vec![two_part_pattern()])
        .build();
    assert_eq!(
        patterned.get_torch_light_level_at(&Vec3(0, 0, 0), &world, &LightColor::Sunlight),
        0
    );
}

#[test]
fn pattern_levels_override_static_levels() {
    let world = world_with_five_at_px();
    let pattern = BlockDynamicPattern {
        parts: vec![BlockConditionalPart {
            rule: rule_five_at_px(),
            faces: vec![],
            aabbs: vec![],
            is_transparent: [false; 6],
            red_light_level: Some(11),
            green_light_level: None,
            blue_light_level: None,
        }],
    };
    let block = Block::new("ember").red_light_level(3).dynamic_patterns(vec![pattern]).build();
    assert_eq!(block.get_torch_light_level_at(&Vec3(0, 0, 0), &world, &LightColor::Red), 11);
    // The green channel is not declared by the part, so the static
    // level stands.
    assert_eq!(block.get_torch_light_level_at(&Vec3(0, 0, 0), &world, &LightColor::Green), 0);
    assert!(block.is_light_at(&Vec3(0, 0, 0), &world));
    // Away from the matching neighbourhood the static levels stand.
    assert_eq!(block.get_torch_light_level_at(&Vec3(10, 0, 0), &world, &LightColor::Red), 3);
    assert!(block.is_light_at(&Vec3(10, 0, 0), &world));
}

#[test]
fn pattern_light_decides_where_the_block_is_unlit() {
    let world = world_with_five_at_px();
    let pattern = BlockDynamicPattern {
        parts: vec![BlockConditionalPart {
            rule: rule_five_at_px(),
            faces: vec![],
            aabbs: vec![],
            is_transparent: [false; 6],
            red_light_level: Some(11),
            green_light_level: None,
            blue_light_level: None,
        }],
    };
    let block = Block::new("spark").dynamic_patterns(vec![pattern]).build();
    assert!(!block.is_light);
    assert!(block.is_light_at(&Vec3(0, 0, 0), &world));
    assert!(!block.is_light_at(&Vec3(10, 0, 0), &world));
}

#[test]
fn builder_derives_the_flags() {
    let block = Block::new("glass")
        .id(4)
        .unwrap()
        .is_px_transparent(true)
        .is_see_through(true)
        .build();
    assert_eq!(block.id, 4);
    assert_eq!(block.name, "glass");
    assert!(!block.is_opaque);
    assert!(!block.is_light);
    assert!(!block.is_dynamic);
    assert!(!block.is_active);
    assert_eq!(block.is_transparent, [true, false, false, false, false, false]);

    let solid = Block::new("stone").id(1).unwrap().build();
    assert!(solid.is_opaque);

    let lamp = Block::new("lamp").id(2).unwrap().torch_light_level(15).build();
    assert!(lamp.is_light);
    assert!(lamp.has_torch_light());
}

#[test]
fn air_id_is_reserved() {
    assert_eq!(Block::new("air").id(0).err(), Some(BlockError::ReservedAirId));
    assert!(Block::new("stone").id(1).is_ok());
}

#[test]
fn transparency_setter_order_is_last_wins() {
    let block = Block::new("pane")
        .is_transparent(true)
        .is_py_transparent(false)
        .build();
    assert_eq!(block.is_transparent, [true, false, true, true, true, true]);
}

#[test]
fn registry_finds_registered_blocks() {
    let mut registry = Registry::new();
    registry.register(Block::new("stone").id(1).unwrap().build());
    registry.register(Block::new("glass").id(4).unwrap().build());
    assert_eq!(registry.get_block_by_id(4).unwrap().name, "glass");
    assert_eq!(registry.get_block_by_id(1).unwrap().name, "stone");
    assert!(registry.get_block_by_id(9).is_none());
}

#[test]
fn rotated_transparency_of_a_block() {
    let block = Block::new("pane").is_px_transparent(true).build();
    let upright = voxel_core::BlockRotation::PY(0);
    assert_eq!(
        block.get_rotated_transparency(&upright),
        [true, false, false, false, false, false]
    );
}

struct CrossOnly;

impl voxel_core::BlockDynamicFn for CrossOnly {
    fn faces_and_aabbs(
        &self,
        _pos: Vec3<i32>,
        _space: &dyn voxel_core::VoxelAccess,
    ) -> (Vec<BlockFace>, Vec<voxel_core::AABB>, [bool; 6]) {
        (vec![named_face("behaviour")], vec![], [false; 6])
    }
}

#[test]
fn legacy_behaviour_supplies_the_faces() {
    let world = VoxelStore::new();
    let registry = Registry::new();
    let block = Block::new("legacy")
        .dynamic_fn(Some(std::sync::Arc::new(CrossOnly)))
        .build();
    assert!(block.is_dynamic);
    assert!(!block.is_active);
    let faces = block.get_faces(&Vec3(0, 0, 0), &world, &registry);
    assert_eq!(faces.len(), 1);
    assert_eq!(faces[0].name, "behaviour");
    assert!(block.get_aabbs(&Vec3(0, 0, 0), &world, &registry).is_empty());
}

#[test]
fn any_matching_part_with_a_positive_level_lights_the_block() {
    let world = VoxelStore::new();
    // The first matching part declares only a zero level; the second
    // declares a positive one. Any matching part with a nonzero level
    // makes the block a light here, whatever came before it.
    let pattern = BlockDynamicPattern {
        parts: vec![
            BlockConditionalPart {
                rule: BlockRule::Always,
                faces: vec![],
                aabbs: vec![],
                is_transparent: [false; 6],
                red_light_level: Some(0),
                green_light_level: None,
                blue_light_level: None,
            },
            BlockConditionalPart {
                rule: BlockRule::Always,
                faces: vec![],
                aabbs: vec![],
                is_transparent: [false; 6],
                red_light_level: Some(5),
                green_light_level: None,
                blue_light_level: None,
            },
        ],
    };
    let block = Block::new("wisp").dynamic_patterns(vec![pattern]).build();
    assert!(!block.is_light);
    assert!(block.is_light_at(&Vec3(0, 0, 0), &world));
}

#[test]
fn zero_level_parts_fall_back_to_the_static_flag() {
    let world = VoxelStore::new();
    let zero_pattern = || BlockDynamicPattern {
        parts: vec![BlockConditionalPart {
            rule: BlockRule::Always,
            faces: vec![],
            aabbs: vec![],
            is_transparent: [false; 6],
            red_light_level: Some(0),
            green_light_level: Some(0),
            blue_light_level: Some(0),
        }],
    };
    // A matching part whose declared levels are all zero does not
    // decide: the static flag stands either way.
    let dark = Block::new("shade").dynamic_patterns(vec![zero_pattern()]).build();
    assert!(!dark.is_light_at(&Vec3(0, 0, 0), &world));
    let lit = Block::new("beacon")
        .red_light_level(7)
        .dynamic_patterns(vec![zero_pattern()])
        .build();
    assert!(lit.is_light_at(&Vec3(0, 0, 0), &world));
}
