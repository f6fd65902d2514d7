//! Blocks, rules and dynamic patterns.
//!
//! A `Block` is the immutable descriptor of one block kind: its id and
//! name, its flags, its static faces and boxes, and, for blocks whose
//! appearance depends on their neighbours, an ordered list of dynamic
//! patterns. A pattern is a list of conditional parts, each gated by a
//! `BlockRule` evaluated against live voxels.

use vstd::prelude::*;

use crate::aabb::AABB;
use crate::access::{VoxelAccess, VoxelUpdate};
use crate::faces::BlockFace;
use crate::lights::LightColor;
use crate::math::Vec3;
use crate::rotation::{BlockError, BlockRotation};
use crate::voxel::{spec_id_of, spec_stage_of};

verus! {

/// How the sub-rules of a combination rule combine.
#[derive(Debug, Clone, Copy, PartialEq, Eq, Structural)]
pub enum BlockRuleLogic {
    /// Every sub-rule must hold.
    And,
    /// At least one sub-rule must hold.
    Or,
    /// No sub-rule may hold. This is a joint negation over the whole
    /// list, deliberately not the classical negation of a conjunction.
    Not,
}

/// An equality test against the voxel at a relative offset. Each field
/// left as `None` is a don't-care.
#[derive(Debug, Clone, Copy, PartialEq, Eq, Structural)]
pub struct BlockSimpleRule {
    /// The offset, relative to the queried position, of the voxel read.
    pub offset: Vec3<i32>,
    /// The block id the voxel must have, if any.
    pub id: Option<u32>,
    /// The rotation the voxel must have, if any.
    pub rotation: Option<BlockRotation>,
    /// The stage the voxel must have, if any.
    pub stage: Option<u32>,
}

/// A rule gating one conditional part of a dynamic pattern.
#[derive(Debug, PartialEq)]
pub enum BlockRule {
    /// Always holds.
    Always,
    /// Holds when every given field of the voxel at the offset matches.
    Simple(BlockSimpleRule),
    /// Holds as the logic says of the sub-rules.
    Combination {
        /// How the sub-rules combine.
        logic: BlockRuleLogic,
        /// The sub-rules.
        rules: Vec<BlockRule>,
    },
}

/// Whether a simple rule holds of the world at a position: every field
/// the rule gives must match the voxel at the position plus the rule's
/// offset.
pub open spec fn spec_simple_rule_holds<V: VoxelAccess>(
    sr: BlockSimpleRule,
    pos: Vec3<i32>,
    space: &V,
) -> bool {
    let x = pos.0 + sr.offset.0;
    let y = pos.1 + sr.offset.1;
    let z = pos.2 + sr.offset.2;
    &&& match sr.id {
        Some(id) => spec_id_of(space.spec_raw_voxel(x, y, z)) == id,
        None => true,
    }
    &&& match sr.rotation {
        Some(rr) => space.spec_rotation_at(x, y, z) == rr,
        None => true,
    }
    &&& match sr.stage {
        Some(st) => spec_stage_of(space.spec_raw_voxel(x, y, z)) == st,
        None => true,
    }
}

/// Whether a rule holds of the world at a position. `And` asks all
/// sub-rules, `Or` asks at least one, and `Not` asks that none hold:
/// a joint negation of the list.
pub open spec fn spec_rule_holds<V: VoxelAccess>(rule: BlockRule, pos: Vec3<i32>, space: &V) -> bool
    decreases rule,
{
    match rule {
        BlockRule::Always => true,
        BlockRule::Simple(sr) => spec_simple_rule_holds(sr, pos, space),
        BlockRule::Combination { logic, rules } => match logic {
            BlockRuleLogic::And => forall|i: int|
                0 <= i < rules@.len() ==> spec_rule_holds(#[trigger] rules@[i], pos, space),
            BlockRuleLogic::Or => exists|i: int|
                0 <= i < rules@.len() && spec_rule_holds(#[trigger] rules@[i], pos, space),
            BlockRuleLogic::Not => forall|i: int|
                0 <= i < rules@.len() ==> !spec_rule_holds(#[trigger] rules@[i], pos, space),
        },
    }
}

/// Every voxel read the rule asks for stays within the world's
/// coordinate range: the position plus each offset fits an `i32`.
pub open spec fn rule_in_bounds(rule: BlockRule, pos: Vec3<i32>) -> bool
    decreases rule,
{
    match rule {
        BlockRule::Always => true,
        BlockRule::Simple(sr) => {
            &&& i32::MIN <= pos.0 + sr.offset.0 <= i32::MAX
            &&& i32::MIN <= pos.1 + sr.offset.1 <= i32::MAX
            &&& i32::MIN <= pos.2 + sr.offset.2 <= i32::MAX
        },
        BlockRule::Combination { rules, .. } => forall|i: int|
            0 <= i < rules@.len() ==> rule_in_bounds(#[trigger] rules@[i], pos),
    }
}

/// Evaluate a rule against the live world at a position.
pub fn evaluate_rule<V: VoxelAccess>(rule: &BlockRule, pos: &Vec3<i32>, space: &V) -> (r: bool)
    requires
        space.wf(),
        rule_in_bounds(*rule, *pos),
    ensures
        r == spec_rule_holds(*rule, *pos, space),
    decreases *rule,
{
    match rule {
        BlockRule::Always => true,
        BlockRule::Simple(simple_rule) => {
            let vx = simple_rule.offset.0 + pos.0;
            let vy = simple_rule.offset.1 + pos.1;
            let vz = simple_rule.offset.2 + pos.2;

            let id_match = match simple_rule.id {
                Some(rule_id) => space.get_voxel(vx, vy, vz) == rule_id,
                None => true,
            };
            let rotation_match = match &simple_rule.rotation {
                Some(rule_rotation) => {
                    let rotation = space.get_voxel_rotation(vx, vy, vz);
                    rotation == *rule_rotation
                },
                None => true,
            };
            let stage_match = match simple_rule.stage {
                Some(rule_stage) => {
                    let stage = space.get_voxel_stage(vx, vy, vz);
                    stage == rule_stage
                },
                None => true,
            };

            id_match && rotation_match && stage_match
        },
        BlockRule::Combination { logic, rules } => match logic {
            BlockRuleLogic::And => {
                let mut i: usize = 0;
                while i < rules.len()
                    invariant
                        space.wf(),
                        rule_in_bounds(*rule, *pos),
                        *rule == (BlockRule::Combination {
                            logic: BlockRuleLogic::And,
                            rules: *rules,
                        }),
                        i <= rules@.len(),
                        forall|j: int|
                            0 <= j < i ==> spec_rule_holds(#[trigger] rules@[j], *pos, space),
                    decreases rules@.len() - i,
                {
                    proof {
                        assert(decreases_to!(*rule => rule->rules));
                        assert(rule->rules == *rules);
                        assert(decreases_to!(*rules => rules@[i as int]));
                    }
                    if !evaluate_rule(&rules[i], pos, space) {
                        return false;
                    }
                    i = i + 1;
                }
                true
            },
            BlockRuleLogic::Or => {
                let mut i: usize = 0;
                while i < rules.len()
                    invariant
                        space.wf(),
                        rule_in_bounds(*rule, *pos),
                        *rule == (BlockRule::Combination {
                            logic: BlockRuleLogic::Or,
                            rules: *rules,
                        }),
                        i <= rules@.len(),
                        forall|j: int|
                            0 <= j < i ==> !spec_rule_holds(#[trigger] rules@[j], *pos, space),
                    decreases rules@.len() - i,
                {
                    proof {
                        assert(decreases_to!(*rule => rule->rules));
                        assert(rule->rules == *rules);
                        assert(decreases_to!(*rules => rules@[i as int]));
                    }
                    if evaluate_rule(&rules[i], pos, space) {
                        return true;
                    }
                    i = i + 1;
                }
                false
            },
            BlockRuleLogic::Not => {
                let mut i: usize = 0;
                while i < rules.len()
                    invariant
                        space.wf(),
                        rule_in_bounds(*rule, *pos),
                        *rule == (BlockRule::Combination {
                            logic: BlockRuleLogic::Not,
                            rules: *rules,
                        }),
                        i <= rules@.len(),
                        forall|j: int|
                            0 <= j < i ==> !spec_rule_holds(#[trigger] rules@[j], *pos, space),
                    decreases rules@.len() - i,
                {
                    proof {
                        assert(decreases_to!(*rule => rule->rules));
                        assert(rule->rules == *rules);
                        assert(decreases_to!(*rules => rules@[i as int]));
                    }
                    if evaluate_rule(&rules[i], pos, space) {
                        return false;
                    }
                    i = i + 1;
                }
                true
            },
        },
    }
}

/// One conditional part of a dynamic pattern: a rule and what applies
/// when it holds.
#[derive(Debug, PartialEq)]
pub struct BlockConditionalPart {
    /// The rule gating this part.
    pub rule: BlockRule,
    /// Faces contributed when the rule holds.
    pub faces: Vec<BlockFace>,
    /// Boxes contributed when the rule holds.
    pub aabbs: Vec<AABB>,
    /// Per-direction transparency contributed when the rule holds.
    pub is_transparent: [bool; 6],
    /// Red torch level override, if declared.
    pub red_light_level: Option<u32>,
    /// Green torch level override, if declared.
    pub green_light_level: Option<u32>,
    /// Blue torch level override, if declared.
    pub blue_light_level: Option<u32>,
}

/// An ordered list of conditional parts, evaluated against live voxels.
#[derive(Debug, PartialEq)]
pub struct BlockDynamicPattern {
    /// The parts, in evaluation order.
    pub parts: Vec<BlockConditionalPart>,
}

/// The faces of every part whose rule holds, in part order,
/// concatenated.
pub open spec fn spec_matching_faces<V: VoxelAccess>(
    parts: Seq<BlockConditionalPart>,
    pos: Vec3<i32>,
    space: &V,
) -> Seq<BlockFace>
    decreases parts.len(),
{
    if parts.len() == 0 {
        Seq::empty()
    } else {
        (if spec_rule_holds(parts[0].rule, pos, space) {
            parts[0].faces@
        } else {
            Seq::empty()
        }) + spec_matching_faces(parts.drop_first(), pos, space)
    }
}

/// The boxes of every part whose rule holds, in part order,
/// concatenated.
pub open spec fn spec_matching_aabbs<V: VoxelAccess>(
    parts: Seq<BlockConditionalPart>,
    pos: Vec3<i32>,
    space: &V,
) -> Seq<AABB>
    decreases parts.len(),
{
    if parts.len() == 0 {
        Seq::empty()
    } else {
        (if spec_rule_holds(parts[0].rule, pos, space) {
            parts[0].aabbs@
        } else {
            Seq::empty()
        }) + spec_matching_aabbs(parts.drop_first(), pos, space)
    }
}

/// Whether direction `k` is transparent in the union over every part
/// whose rule holds: transparency accumulates across matching parts.
pub open spec fn spec_combined_transparent<V: VoxelAccess>(
    parts: Seq<BlockConditionalPart>,
    pos: Vec3<i32>,
    space: &V,
    k: int,
) -> bool
    decreases parts.len(),
{
    if parts.len() == 0 {
        false
    } else {
        (spec_rule_holds(parts[0].rule, pos, space) && parts[0].is_transparent@[k])
            || spec_combined_transparent(parts.drop_first(), pos, space, k)
    }
}

/// Every rule of every part keeps its voxel reads within the world's
/// coordinate range at this position.
pub open spec fn parts_in_bounds(parts: Seq<BlockConditionalPart>, pos: Vec3<i32>) -> bool {
    forall|i: int| 0 <= i < parts.len() ==> rule_in_bounds((#[trigger] parts[i]).rule, pos)
}

/// Every rule of every part of every pattern keeps its voxel reads
/// within the world's coordinate range at this position.
pub open spec fn patterns_in_bounds(patterns: Seq<BlockDynamicPattern>, pos: Vec3<i32>) -> bool {
    forall|i: int| 0 <= i < patterns.len() ==> parts_in_bounds((#[trigger] patterns[i]).parts@, pos)
}

/// Push a copy of every face of `src` onto `dst`, in order.
fn append_face_clones(dst: &mut Vec<BlockFace>, src: &Vec<BlockFace>)
    ensures
        final(dst)@ == old(dst)@ + src@,
{
    let mut i: usize = 0;
    proof {
        assert(dst@ =~= old(dst)@ + src@.take(0));
    }
    while i < src.len()
        invariant
            i <= src@.len(),
            dst@ =~= old(dst)@ + src@.take(i as int),
        decreases src@.len() - i,
    {
        dst.push(src[i].clone());
        proof {
            assert(dst@ =~= old(dst)@ + src@.take(i as int + 1));
        }
        i = i + 1;
    }
    proof {
        assert(dst@ =~= old(dst)@ + src@);
    }
}

/// Push a copy of every box of `src` onto `dst`, in order.
fn append_aabb_copies(dst: &mut Vec<AABB>, src: &Vec<AABB>)
    ensures
        final(dst)@ == old(dst)@ + src@,
{
    let mut i: usize = 0;
    proof {
        assert(dst@ =~= old(dst)@ + src@.take(0));
    }
    while i < src.len()
        invariant
            i <= src@.len(),
            dst@ =~= old(dst)@ + src@.take(i as int),
        decreases src@.len() - i,
    {
        dst.push(src[i]);
        proof {
            assert(dst@ =~= old(dst)@ + src@.take(i as int + 1));
        }
        i = i + 1;
    }
    proof {
        assert(dst@ =~= old(dst)@ + src@);
    }
}

/// Evaluate one dynamic pattern at a position: the faces and boxes of
/// every part whose rule holds, concatenated in part order, and the
/// union of their per-direction transparency.
pub fn evaluate_dynamic_pattern<V: VoxelAccess>(
    pattern: &BlockDynamicPattern,
    pos: &Vec3<i32>,
    space: &V,
) -> (r: (Vec<BlockFace>, Vec<AABB>, [bool; 6]))
    requires
        space.wf(),
        parts_in_bounds(pattern.parts@, *pos),
    ensures
        r.0@ == spec_matching_faces(pattern.parts@, *pos, space),
        r.1@ == spec_matching_aabbs(pattern.parts@, *pos, space),
        forall|k: int|
            0 <= k < 6 ==> r.2@[k] == spec_combined_transparent(pattern.parts@, *pos, space, k),
{
    let mut combined_faces: Vec<BlockFace> = Vec::new();
    let mut combined_aabbs: Vec<AABB> = Vec::new();
    let mut combined_transparency: [bool; 6] = [false, false, false, false, false, false];

    let parts = &pattern.parts;
    let ghost all = pattern.parts@;
    let mut i: usize = 0;
    proof {
        assert(all.skip(0) =~= all);
    }
    while i < parts.len()
        invariant
            space.wf(),
            parts_in_bounds(all, *pos),
            parts@ == all,
            i <= all.len(),
            spec_matching_faces(all, *pos, space) =~= combined_faces@ + spec_matching_faces(
                all.skip(i as int),
                *pos,
                space,
            ),
            spec_matching_aabbs(all, *pos, space) =~= combined_aabbs@ + spec_matching_aabbs(
                all.skip(i as int),
                *pos,
                space,
            ),
            combined_transparency@.len() == 6,
            forall|k: int|
                0 <= k < 6 ==> spec_combined_transparent(all, *pos, space, k) == (
                combined_transparency@[k] || spec_combined_transparent(
                    all.skip(i as int),
                    *pos,
                    space,
                    k,
                )),
        decreases all.len() - i,
    {
        proof {
            assert(all.skip(i as int).drop_first() =~= all.skip(i as int + 1));
            assert(all.skip(i as int)[0] == all[i as int]);
        }
        let ghost i0 = i as int;
        let part = &parts[i];
        let matched = evaluate_rule(&part.rule, pos, space);
        let ghost before = combined_transparency@;
        if matched {
            append_face_clones(&mut combined_faces, &part.faces);
            append_aabb_copies(&mut combined_aabbs, &part.aabbs);
            combined_transparency = [
                combined_transparency[0] || part.is_transparent[0],
                combined_transparency[1] || part.is_transparent[1],
                combined_transparency[2] || part.is_transparent[2],
                combined_transparency[3] || part.is_transparent[3],
                combined_transparency[4] || part.is_transparent[4],
                combined_transparency[5] || part.is_transparent[5],
            ];
        }
        i = i + 1;
        proof {
            assert(spec_matching_faces(all, *pos, space) =~= combined_faces@
                + spec_matching_faces(all.skip(i as int), *pos, space));
            assert(spec_matching_aabbs(all, *pos, space) =~= combined_aabbs@
                + spec_matching_aabbs(all.skip(i as int), *pos, space));
            assert forall|k: int|
                0 <= k < 6 implies spec_combined_transparent(all, *pos, space, k) == (
            combined_transparency@[k] || spec_combined_transparent(
                all.skip(i as int),
                *pos,
                space,
                k,
            )) by {
                let prev = all.skip(i0);
                assert(spec_combined_transparent(all, *pos, space, k) == (before[k]
                    || spec_combined_transparent(all.skip(i0), *pos, space, k)));
                assert(prev.drop_first() =~= all.skip(i as int));
                assert(prev[0] == all[i0]);
                if matched {
                    assert(combined_transparency@[0] == (before[0] || part.is_transparent@[0]));
                    assert(combined_transparency@[1] == (before[1] || part.is_transparent@[1]));
                    assert(combined_transparency@[2] == (before[2] || part.is_transparent@[2]));
                    assert(combined_transparency@[3] == (before[3] || part.is_transparent@[3]));
                    assert(combined_transparency@[4] == (before[4] || part.is_transparent@[4]));
                    assert(combined_transparency@[5] == (before[5] || part.is_transparent@[5]));
                } else {
                    assert(combined_transparency@ == before);
                }
                assert(spec_combined_transparent(prev, *pos, space, k) == ((spec_rule_holds(
                    prev[0].rule,
                    *pos,
                    space,
                ) && prev[0].is_transparent@[k]) || spec_combined_transparent(
                    all.skip(i as int),
                    *pos,
                    space,
                    k,
                )));
            }
        }
    }
    proof {
        assert(all.skip(all.len() as int) =~= Seq::<BlockConditionalPart>::empty());
        assert(combined_faces@ =~= combined_faces@ + Seq::<BlockFace>::empty());
        assert(combined_aabbs@ =~= combined_aabbs@ + Seq::<AABB>::empty());
    }
    (combined_faces, combined_aabbs, combined_transparency)
}

/// Which of the sixteen y-rotation segments a block may snap to.
#[derive(Debug, Clone, Copy, PartialEq, Eq, Structural)]
pub enum YRotatableSegments {
    /// All sixteen segments.
    All,
    /// Every second segment.
    Eight,
    /// Every fourth segment.
    Four,
}

impl Default for YRotatableSegments {
    /// All sixteen segments.
    fn default() -> (r: Self)
        ensures
            r == YRotatableSegments::All,
    {
        Self::All
    }
}

/// The id-to-block registry capability: block descriptors are
/// registered once at startup and looked up read-only ever after.
pub struct Registry {
    /// The registered blocks, in registration order.
    pub blocks: Vec<Block>,
}

impl Registry {
    /// An empty registry.
    pub fn new() -> (r: Self)
        ensures
            r.blocks@ =~= Seq::<Block>::empty(),
    {
        Self { blocks: Vec::new() }
    }

    /// Register a block.
    pub fn register(&mut self, block: Block)
        ensures
            final(self).blocks@ == old(self).blocks@.push(block),
    {
        self.blocks.push(block);
    }

    /// Look up the earliest-registered block with the given id.
    pub fn get_block_by_id(&self, id: u32) -> (r: Option<&Block>)
        ensures
            r is Some <==> exists|i: int| 0 <= i < self.blocks@.len() && (#[trigger] self.blocks@[i]).id
                == id,
            r matches Some(b) ==> exists|i: int|
                {
                    &&& 0 <= i < self.blocks@.len()
                    &&& (#[trigger] self.blocks@[i]).id == id
                    &&& *b == self.blocks@[i]
                    &&& forall|j: int| 0 <= j < i ==> (#[trigger] self.blocks@[j]).id != id
                },
    {
        let mut i: usize = 0;
        while i < self.blocks.len()
            invariant
                i <= self.blocks@.len(),
                forall|j: int| 0 <= j < i ==> (#[trigger] self.blocks@[j]).id != id,
            decreases self.blocks@.len() - i,
        {
            if self.blocks[i].id == id {
                return Some(&self.blocks[i]);
            }
            i = i + 1;
        }
        None
    }
}

/// The legacy per-block behaviour that computes faces, boxes and
/// transparency from a position and the world. It is process-local
/// behaviour rebound at startup, never data, and nothing is assumed of
/// what it returns. A behaviour that needs the registry captures it
/// when it is bound.
pub trait BlockDynamicFn: Send + Sync {
    /// The faces, boxes and per-direction transparency at a position.
    fn faces_and_aabbs(&self, pos: Vec3<i32>, space: &dyn VoxelAccess) -> (
        Vec<BlockFace>,
        Vec<AABB>,
        [bool; 6],
    );
}

/// The tick half of an active block's behaviour: how long until the
/// block wants its next update. A behaviour that needs the registry
/// captures it when it is bound.
pub trait BlockActiveTicker: Send + Sync {
    /// The delay until the next update, in ticks.
    fn tick(&self, pos: Vec3<i32>, space: &dyn VoxelAccess) -> u64;
}

/// The update half of an active block's behaviour: the voxel writes the
/// block wants made. A behaviour that needs the registry captures it
/// when it is bound.
pub trait BlockActiveUpdater: Send + Sync {
    /// The voxel writes to apply.
    fn update(&self, pos: Vec3<i32>, space: &dyn VoxelAccess) -> Vec<VoxelUpdate>;
}

/// The immutable descriptor of one block kind. Built once through
/// `BlockBuilder`, then shared read-only.
pub struct Block {
    /// Id of the block; 0 is reserved for air.
    pub id: u32,
    /// Name of the block.
    pub name: String,
    /// Whether the block may be rotated at all.
    pub rotatable: bool,
    /// Whether the block may carry a y-axis sub-rotation.
    pub y_rotatable: bool,
    /// Which y-rotation segments the block may snap to.
    pub y_rotatable_segments: YRotatableSegments,
    /// Whether the block is empty space.
    pub is_empty: bool,
    /// Whether the block is a fluid.
    pub is_fluid: bool,
    /// Whether the block emits light: derived, true exactly when some
    /// static torch level is positive.
    pub is_light: bool,
    /// Whether the block can be passed through.
    pub is_passable: bool,
    /// Whether the block is opaque: derived, true exactly when no
    /// direction is transparent.
    pub is_opaque: bool,
    /// Static red torch level.
    pub red_light_level: u32,
    /// Static green torch level.
    pub green_light_level: u32,
    /// Static blue torch level.
    pub blue_light_level: u32,
    /// Whether transparent faces render individually.
    pub transparent_standalone: bool,
    /// The static faces.
    pub faces: Vec<BlockFace>,
    /// The static bounding boxes.
    pub aabbs: Vec<AABB>,
    /// Whether the block is see-through as a whole.
    pub is_see_through: bool,
    /// Per-direction transparency, in the px, py, pz, nx, ny, nz order.
    pub is_transparent: [bool; 6],
    /// Whether light dims when passing through.
    pub light_reduce: bool,
    /// Whether the block is backed by an entity.
    pub is_entity: bool,
    /// Whether faces and boxes are computed per position: derived, true
    /// exactly when the block has patterns or a legacy behaviour.
    pub is_dynamic: bool,
    /// The dynamic patterns, evaluated in order, if any.
    pub dynamic_patterns: Option<Vec<BlockDynamicPattern>>,
    /// The legacy per-position behaviour, if any. Never serialized.
    pub dynamic_fn: Option<std::sync::Arc<dyn BlockDynamicFn>>,
    /// The update half of the active behaviour, if any. Never
    /// serialized.
    pub active_updater: Option<std::sync::Arc<dyn BlockActiveUpdater>>,
    /// The tick half of the active behaviour, if any. Never serialized.
    pub active_ticker: Option<std::sync::Arc<dyn BlockActiveTicker>>,
    /// Whether the block ticks: derived, true exactly when both halves
    /// of the active behaviour are present.
    pub is_active: bool,
}

/// The faces of the first pattern that yields any, or the fallback.
pub open spec fn spec_selected_faces<V: VoxelAccess>(
    patterns: Seq<BlockDynamicPattern>,
    pos: Vec3<i32>,
    space: &V,
    fallback: Seq<BlockFace>,
) -> Seq<BlockFace>
    decreases patterns.len(),
{
    if patterns.len() == 0 {
        fallback
    } else if spec_matching_faces(patterns[0].parts@, pos, space).len() > 0 {
        spec_matching_faces(patterns[0].parts@, pos, space)
    } else {
        spec_selected_faces(patterns.drop_first(), pos, space, fallback)
    }
}

/// The boxes of the first pattern that yields any, or the fallback.
pub open spec fn spec_selected_aabbs<V: VoxelAccess>(
    patterns: Seq<BlockDynamicPattern>,
    pos: Vec3<i32>,
    space: &V,
    fallback: Seq<AABB>,
) -> Seq<AABB>
    decreases patterns.len(),
{
    if patterns.len() == 0 {
        fallback
    } else if spec_matching_aabbs(patterns[0].parts@, pos, space).len() > 0 {
        spec_matching_aabbs(patterns[0].parts@, pos, space)
    } else {
        spec_selected_aabbs(patterns.drop_first(), pos, space, fallback)
    }
}

/// Whether the part's declared torch levels make it a light: some
/// declared channel is positive (an undeclared channel counts as zero).
pub open spec fn spec_part_light_value(p: BlockConditionalPart) -> bool {
    ||| (match p.red_light_level {
        Some(l) => l > 0,
        None => false,
    })
    ||| (match p.green_light_level {
        Some(l) => l > 0,
        None => false,
    })
    ||| (match p.blue_light_level {
        Some(l) => l > 0,
        None => false,
    })
}

/// Whether some part whose rule holds declares a positive torch level.
pub open spec fn spec_any_part_lights<V: VoxelAccess>(
    parts: Seq<BlockConditionalPart>,
    pos: Vec3<i32>,
    space: &V,
) -> bool {
    exists|i: int|
        0 <= i < parts.len() && spec_rule_holds((#[trigger] parts[i]).rule, pos, space)
            && spec_part_light_value(parts[i])
}

/// Whether some part of some pattern whose rule holds declares a
/// positive torch level.
pub open spec fn spec_any_pattern_lights<V: VoxelAccess>(
    patterns: Seq<BlockDynamicPattern>,
    pos: Vec3<i32>,
    space: &V,
) -> bool {
    exists|i: int|
        0 <= i < patterns.len() && spec_any_part_lights(
            (#[trigger] patterns[i]).parts@,
            pos,
            space,
        )
}

/// Whether the block emits light at a position: true when any matching
/// conditional part declares a nonzero torch level, and otherwise the
/// static flag stands.
pub open spec fn spec_is_light_at<V: VoxelAccess>(b: &Block, pos: Vec3<i32>, space: &V) -> bool {
    match b.dynamic_patterns {
        Some(ps) => spec_any_pattern_lights(ps@, pos, space) || b.is_light,
        None => b.is_light,
    }
}

/// The block's static torch level on a channel; sunlight is never a
/// torch channel and reads as zero.
pub open spec fn spec_static_torch(b: &Block, color: LightColor) -> u32 {
    match color {
        LightColor::Red => b.red_light_level,
        LightColor::Green => b.green_light_level,
        LightColor::Blue => b.blue_light_level,
        LightColor::Sunlight => 0,
    }
}

/// The level the first matching part gives the channel, if any matching
/// part declares it. A matching part settles the sunlight channel at
/// zero outright.
pub open spec fn spec_torch_probe_parts<V: VoxelAccess>(
    parts: Seq<BlockConditionalPart>,
    pos: Vec3<i32>,
    space: &V,
    color: LightColor,
) -> Option<u32>
    decreases parts.len(),
{
    if parts.len() == 0 {
        None
    } else if spec_rule_holds(parts[0].rule, pos, space) {
        match color {
            LightColor::Sunlight => Some(0),
            LightColor::Red => match parts[0].red_light_level {
                Some(l) => Some(l),
                None => spec_torch_probe_parts(parts.drop_first(), pos, space, color),
            },
            LightColor::Green => match parts[0].green_light_level {
                Some(l) => Some(l),
                None => spec_torch_probe_parts(parts.drop_first(), pos, space, color),
            },
            LightColor::Blue => match parts[0].blue_light_level {
                Some(l) => Some(l),
                None => spec_torch_probe_parts(parts.drop_first(), pos, space, color),
            },
        }
    } else {
        spec_torch_probe_parts(parts.drop_first(), pos, space, color)
    }
}

/// The level the first pattern that settles the channel gives it, if
/// any does.
pub open spec fn spec_torch_probe_patterns<V: VoxelAccess>(
    patterns: Seq<BlockDynamicPattern>,
    pos: Vec3<i32>,
    space: &V,
    color: LightColor,
) -> Option<u32>
    decreases patterns.len(),
{
    if patterns.len() == 0 {
        None
    } else {
        match spec_torch_probe_parts(patterns[0].parts@, pos, space, color) {
            Some(l) => Some(l),
            None => spec_torch_probe_patterns(patterns.drop_first(), pos, space, color),
        }
    }
}

/// The block's torch level on a channel at a position: what the
/// patterns say there, or the static level where they say nothing.
pub open spec fn spec_torch_light_at<V: VoxelAccess>(
    b: &Block,
    pos: Vec3<i32>,
    space: &V,
    color: LightColor,
) -> u32 {
    match b.dynamic_patterns {
        Some(ps) => match spec_torch_probe_patterns(ps@, pos, space, color) {
            Some(l) => l,
            None => spec_static_torch(b, color),
        },
        None => spec_static_torch(b, color),
    }
}

impl Block {
    /// A dynamic block has a source for its geometry: patterns or the
    /// legacy behaviour. The builder establishes this.
    pub open spec fn wf(&self) -> bool {
        self.is_dynamic ==> (self.dynamic_patterns is Some || self.dynamic_fn is Some)
    }

    /// Every rule of every pattern keeps its voxel reads within the
    /// world's coordinate range at this position.
    pub open spec fn patterns_in_bounds_at(&self, pos: Vec3<i32>) -> bool {
        match self.dynamic_patterns {
            Some(ps) => patterns_in_bounds(ps@, pos),
            None => true,
        }
    }

    /// Whether any static torch channel is positive.
    pub fn has_torch_light(&self) -> (r: bool)
        ensures
            r == (self.red_light_level > 0 || self.green_light_level > 0
                || self.blue_light_level > 0),
    {
        self.red_light_level > 0 || self.green_light_level > 0 || self.blue_light_level > 0
    }

    /// Whether the block emits light at a position: true when any
    /// conditional part whose rule matches declares a nonzero torch
    /// level, and otherwise the static flag stands.
    #[verifier::loop_isolation(false)]
    pub fn is_light_at<V: VoxelAccess>(&self, pos: &Vec3<i32>, space: &V) -> (r: bool)
        requires
            space.wf(),
            self.patterns_in_bounds_at(*pos),
        ensures
            r == spec_is_light_at(self, *pos, space),
    {
        if let Some(dynamic_patterns) = &self.dynamic_patterns {
            let ghost all = dynamic_patterns@;
            let mut i: usize = 0;
            while i < dynamic_patterns.len()
                invariant
                    space.wf(),
                    patterns_in_bounds(all, *pos),
                    dynamic_patterns@ == all,
                    i <= all.len(),
                    forall|k: int|
                        0 <= k < i ==> !spec_any_part_lights(
                            (#[trigger] all[k]).parts@,
                            *pos,
                            space,
                        ),
                decreases all.len() - i,
            {
                let ghost i0 = i as int;
                let pattern = &dynamic_patterns[i];
                let parts = &pattern.parts;
                let ghost ap = parts@;
                let mut j: usize = 0;
                while j < parts.len()
                    invariant
                        space.wf(),
                        patterns_in_bounds(all, *pos),
                        dynamic_patterns@ == all,
                        0 <= i0 < all.len(),
                        parts@ == ap,
                        ap == all[i0].parts@,
                        parts_in_bounds(ap, *pos),
                        j <= ap.len(),
                        forall|m: int|
                            0 <= m < j ==> !(spec_rule_holds(
                                (#[trigger] ap[m]).rule,
                                *pos,
                                space,
                            ) && spec_part_light_value(ap[m])),
                    decreases ap.len() - j,
                {
                    let part = &parts[j];
                    if evaluate_rule(&part.rule, pos, space) {
                        let red = match part.red_light_level {
                            Some(l) => l > 0,
                            None => false,
                        };
                        let green = match part.green_light_level {
                            Some(l) => l > 0,
                            None => false,
                        };
                        let blue = match part.blue_light_level {
                            Some(l) => l > 0,
                            None => false,
                        };
                        if red || green || blue {
                            proof {
                                assert(spec_any_part_lights(ap, *pos, space));
                                assert(spec_any_pattern_lights(all, *pos, space));
                            }
                            return true;
                        }
                    }
                    j = j + 1;
                }
                i = i + 1;
            }
            proof {
                assert(!spec_any_pattern_lights(all, *pos, space));
            }
            self.is_light
        } else {
            self.is_light
        }
    }

    /// The block's torch level on a channel, from its static levels
    /// alone. Sunlight is never a torch channel and reads as zero.
    pub fn get_torch_light_level(&self, color: &LightColor) -> (r: u32)
        ensures
            r == spec_static_torch(self, *color),
    {
        match *color {
            LightColor::Red => self.red_light_level,
            LightColor::Green => self.green_light_level,
            LightColor::Blue => self.blue_light_level,
            LightColor::Sunlight => 0,
        }
    }

    /// The block's torch level on a channel at a position: the first
    /// matching conditional part that declares the channel decides, and
    /// without one the static level stands. Sunlight always reads zero.
    #[verifier::loop_isolation(false)]
    pub fn get_torch_light_level_at<V: VoxelAccess>(
        &self,
        pos: &Vec3<i32>,
        space: &V,
        color: &LightColor,
    ) -> (r: u32)
        requires
            space.wf(),
            self.patterns_in_bounds_at(*pos),
        ensures
            r == spec_torch_light_at(self, *pos, space, *color),
    {
        if let Some(dynamic_patterns) = &self.dynamic_patterns {
            let ghost all = dynamic_patterns@;
            let mut i: usize = 0;
            proof {
                assert(all.skip(0) =~= all);
            }
            while i < dynamic_patterns.len()
                invariant
                    space.wf(),
                    patterns_in_bounds(all, *pos),
                    dynamic_patterns@ == all,
                    i <= all.len(),
                    spec_torch_probe_patterns(all, *pos, space, *color)
                        == spec_torch_probe_patterns(all.skip(i as int), *pos, space, *color),
                decreases all.len() - i,
            {
                let ghost i0 = i as int;
                let pattern = &dynamic_patterns[i];
                let parts = &pattern.parts;
                let ghost ap = parts@;
                let mut j: usize = 0;
                proof {
                    assert(ap.skip(0) =~= ap);
                }
                while j < parts.len()
                    invariant
                        space.wf(),
                        patterns_in_bounds(all, *pos),
                        dynamic_patterns@ == all,
                        0 <= i0 < all.len(),
                        parts@ == ap,
                        ap == all[i0].parts@,
                        parts_in_bounds(ap, *pos),
                        j <= ap.len(),
                        spec_torch_probe_parts(ap, *pos, space, *color) == spec_torch_probe_parts(
                            ap.skip(j as int),
                            *pos,
                            space,
                            *color,
                        ),
                        spec_torch_probe_patterns(all, *pos, space, *color)
                            == spec_torch_probe_patterns(all.skip(i0), *pos, space, *color),
                    decreases ap.len() - j,
                {
                    proof {
                        assert(ap.skip(j as int).drop_first() =~= ap.skip(j as int + 1));
                        assert(ap.skip(j as int)[0] == ap[j as int]);
                    }
                    let part = &parts[j];
                    if evaluate_rule(&part.rule, pos, space) {
                        proof {
                            assert(all.skip(i0).drop_first() =~= all.skip(i0 + 1));
                            assert(all.skip(i0)[0] == all[i0]);
                        }
                        match *color {
                            LightColor::Red => {
                                if let Some(level) = part.red_light_level {
                                    return level;
                                }
                            },
                            LightColor::Green => {
                                if let Some(level) = part.green_light_level {
                                    return level;
                                }
                            },
                            LightColor::Blue => {
                                if let Some(level) = part.blue_light_level {
                                    return level;
                                }
                            },
                            LightColor::Sunlight => {
                                return 0;
                            },
                        }
                    }
                    j = j + 1;
                }
                proof {
                    assert(ap.skip(ap.len() as int) =~= Seq::<BlockConditionalPart>::empty());
                    assert(all.skip(i0).drop_first() =~= all.skip(i0 + 1));
                    assert(all.skip(i0)[0] == all[i0]);
                }
                i = i + 1;
            }
            proof {
                assert(all.skip(all.len() as int) =~= Seq::<BlockDynamicPattern>::empty());
            }
            self.get_torch_light_level(color)
        } else {
            self.get_torch_light_level(color)
        }
    }

    /// The block's faces at a position. A static block returns its
    /// static faces; a pattern block returns the first pattern's
    /// non-empty face result, falling back to the static faces; a
    /// legacy-behaviour block returns whatever the behaviour computes.
    #[verifier::loop_isolation(false)]
    pub fn get_faces<V: VoxelAccess>(
        &self,
        pos: &Vec3<i32>,
        space: &V,
        registry: &Registry,
    ) -> (r: Vec<BlockFace>)
        requires
            self.wf(),
            space.wf(),
            self.patterns_in_bounds_at(*pos),
        ensures
            !self.is_dynamic ==> r@ == self.faces@,
            self.dynamic_patterns matches Some(ps) ==> self.is_dynamic ==> r@ == spec_selected_faces(
                ps@,
                *pos,
                space,
                self.faces@,
            ),
    {
        if self.is_dynamic {
            if let Some(dynamic_patterns) = &self.dynamic_patterns {
                let ghost all = dynamic_patterns@;
                let mut i: usize = 0;
                proof {
                    assert(all.skip(0) =~= all);
                }
                while i < dynamic_patterns.len()
                    invariant
                        space.wf(),
                        patterns_in_bounds(all, *pos),
                        dynamic_patterns@ == all,
                        i <= all.len(),
                        spec_selected_faces(all, *pos, space, self.faces@) == spec_selected_faces(
                            all.skip(i as int),
                            *pos,
                            space,
                            self.faces@,
                        ),
                    decreases all.len() - i,
                {
                    let ghost i0 = i as int;
                    proof {
                        assert(all.skip(i0).drop_first() =~= all.skip(i0 + 1));
                        assert(all.skip(i0)[0] == all[i0]);
                    }
                    let (faces, _aabbs, _transparency) = evaluate_dynamic_pattern(
                        &dynamic_patterns[i],
                        pos,
                        space,
                    );
                    if faces.len() > 0 {
                        return faces;
                    }
                    i = i + 1;
                }
                proof {
                    assert(all.skip(all.len() as int) =~= Seq::<BlockDynamicPattern>::empty());
                }
                let mut fallback: Vec<BlockFace> = Vec::new();
                append_face_clones(&mut fallback, &self.faces);
                proof {
                    assert(fallback@ =~= self.faces@);
                }
                fallback
            } else {
                match &self.dynamic_fn {
                    Some(behaviour) => behaviour.faces_and_aabbs(*pos, space).0,
                    None => unreached(),
                }
            }
        } else {
            let mut result: Vec<BlockFace> = Vec::new();
            append_face_clones(&mut result, &self.faces);
            proof {
                assert(result@ =~= self.faces@);
            }
            result
        }
    }

    /// The block's bounding boxes at a position. A static block returns
    /// its static boxes; a pattern block returns the first pattern's
    /// non-empty box result, falling back to the static boxes; a
    /// legacy-behaviour block returns whatever the behaviour computes.
    #[verifier::loop_isolation(false)]
    pub fn get_aabbs<V: VoxelAccess>(
        &self,
        pos: &Vec3<i32>,
        space: &V,
        registry: &Registry,
    ) -> (r: Vec<AABB>)
        requires
            self.wf(),
            space.wf(),
            self.patterns_in_bounds_at(*pos),
        ensures
            !self.is_dynamic ==> r@ == self.aabbs@,
            self.dynamic_patterns matches Some(ps) ==> self.is_dynamic ==> r@ == spec_selected_aabbs(
                ps@,
                *pos,
                space,
                self.aabbs@,
            ),
    {
        if self.is_dynamic {
            if let Some(dynamic_patterns) = &self.dynamic_patterns {
                let ghost all = dynamic_patterns@;
                let mut i: usize = 0;
                proof {
                    assert(all.skip(0) =~= all);
                }
                while i < dynamic_patterns.len()
                    invariant
                        space.wf(),
                        patterns_in_bounds(all, *pos),
                        dynamic_patterns@ == all,
                        i <= all.len(),
                        spec_selected_aabbs(all, *pos, space, self.aabbs@) == spec_selected_aabbs(
                            all.skip(i as int),
                            *pos,
                            space,
                            self.aabbs@,
                        ),
                    decreases all.len() - i,
                {
                    let ghost i0 = i as int;
                    proof {
                        assert(all.skip(i0).drop_first() =~= all.skip(i0 + 1));
                        assert(all.skip(i0)[0] == all[i0]);
                    }
                    let (_faces, aabbs, _transparency) = evaluate_dynamic_pattern(
                        &dynamic_patterns[i],
                        pos,
                        space,
                    );
                    if aabbs.len() > 0 {
                        return aabbs;
                    }
                    i = i + 1;
                }
                proof {
                    assert(all.skip(all.len() as int) =~= Seq::<BlockDynamicPattern>::empty());
                }
                let mut fallback: Vec<AABB> = Vec::new();
                append_aabb_copies(&mut fallback, &self.aabbs);
                proof {
                    assert(fallback@ =~= self.aabbs@);
                }
                fallback
            } else {
                match &self.dynamic_fn {
                    Some(behaviour) => behaviour.faces_and_aabbs(*pos, space).1,
                    None => unreached(),
                }
            }
        } else {
            let mut result: Vec<AABB> = Vec::new();
            append_aabb_copies(&mut result, &self.aabbs);
            proof {
                assert(result@ =~= self.aabbs@);
            }
            result
        }
    }

    /// The block's static transparency mask carried into a rotation.
    pub fn get_rotated_transparency(&self, rotation: &BlockRotation) -> (r: [bool; 6])
        ensures
            r@ =~= crate::rotation::spec_rotate_transparency(*rotation, self.is_transparent),
    {
        rotation.rotate_transparency(self.is_transparent)
    }
}

/// A chainable configuration for a `Block`; `build` materializes the
/// block and derives its computed flags.
pub struct BlockBuilder {
    /// Id to build with; 0 is reserved for air and refused by `id`.
    pub id: u32,
    /// Name to build with.
    pub name: String,
    /// Whether the block may be rotated.
    pub rotatable: bool,
    /// Whether the block may carry a y-axis sub-rotation.
    pub y_rotatable: bool,
    /// Which y-rotation segments the block may snap to.
    pub y_rotatable_segments: YRotatableSegments,
    /// Whether the block is empty space.
    pub is_empty: bool,
    /// Whether the block is a fluid.
    pub is_fluid: bool,
    /// Whether the block can be passed through.
    pub is_passable: bool,
    /// Static red torch level.
    pub red_light_level: u32,
    /// Static green torch level.
    pub green_light_level: u32,
    /// Static blue torch level.
    pub blue_light_level: u32,
    /// Whether transparent faces render individually.
    pub transparent_standalone: bool,
    /// The static faces.
    pub faces: Vec<BlockFace>,
    /// The static bounding boxes.
    pub aabbs: Vec<AABB>,
    /// Whether the block is see-through as a whole.
    pub is_see_through: bool,
    /// Transparency looking along positive x.
    pub is_px_transparent: bool,
    /// Transparency looking along positive y.
    pub is_py_transparent: bool,
    /// Transparency looking along positive z.
    pub is_pz_transparent: bool,
    /// Transparency looking along negative x.
    pub is_nx_transparent: bool,
    /// Transparency looking along negative y.
    pub is_ny_transparent: bool,
    /// Transparency looking along negative z.
    pub is_nz_transparent: bool,
    /// Whether the block is backed by an entity.
    pub is_entity: bool,
    /// Whether light dims when passing through.
    pub light_reduce: bool,
    /// The dynamic patterns, if any.
    pub dynamic_patterns: Option<Vec<BlockDynamicPattern>>,
    /// The legacy per-position behaviour, if any.
    pub dynamic_fn: Option<std::sync::Arc<dyn BlockDynamicFn>>,
    /// The update half of the active behaviour, if any.
    pub active_updater: Option<std::sync::Arc<dyn BlockActiveUpdater>>,
    /// The tick half of the active behaviour, if any.
    pub active_ticker: Option<std::sync::Arc<dyn BlockActiveTicker>>,
}

/// The builder `SixFacesBuilder::new` value: unit scales, zero offsets,
/// empty name parts, no flags, no rotation.
pub open spec fn spec_unit_six_builder(b: crate::faces::SixFacesBuilder) -> bool {
    &&& b.scale_x == 65536i64
    &&& b.scale_y == 65536i64
    &&& b.scale_z == 65536i64
    &&& b.offset_x == 0i64
    &&& b.offset_y == 0i64
    &&& b.offset_z == 0i64
    &&& b.uv_scale_x == 65536i64
    &&& b.uv_scale_y == 65536i64
    &&& b.uv_scale_z == 65536i64
    &&& b.uv_offset_x == 0i64
    &&& b.uv_offset_y == 0i64
    &&& b.uv_offset_z == 0i64
    &&& b.prefix@ == Seq::<char>::empty()
    &&& b.suffix@ == Seq::<char>::empty()
    &&& b.concat@ == Seq::<char>::empty()
    &&& b.independence@ =~= seq![false, false, false, false, false, false]
    &&& b.isolation@ =~= seq![false, false, false, false, false, false]
    &&& b.auto_uv_offset == false
    &&& b.rotation is None
}

/// All fields of the two configurations except the patterns and the
/// behaviour handles.
pub open spec fn builder_same_core(a: BlockBuilder, b: BlockBuilder) -> bool {
    &&& a.id == b.id
    &&& a.name == b.name
    &&& a.rotatable == b.rotatable
    &&& a.y_rotatable == b.y_rotatable
    &&& a.y_rotatable_segments == b.y_rotatable_segments
    &&& a.is_empty == b.is_empty
    &&& a.is_fluid == b.is_fluid
    &&& a.is_passable == b.is_passable
    &&& a.red_light_level == b.red_light_level
    &&& a.green_light_level == b.green_light_level
    &&& a.blue_light_level == b.blue_light_level
    &&& a.transparent_standalone == b.transparent_standalone
    &&& a.faces == b.faces
    &&& a.aabbs == b.aabbs
    &&& a.is_see_through == b.is_see_through
    &&& a.is_px_transparent == b.is_px_transparent
    &&& a.is_py_transparent == b.is_py_transparent
    &&& a.is_pz_transparent == b.is_pz_transparent
    &&& a.is_nx_transparent == b.is_nx_transparent
    &&& a.is_ny_transparent == b.is_ny_transparent
    &&& a.is_nz_transparent == b.is_nz_transparent
    &&& a.is_entity == b.is_entity
    &&& a.light_reduce == b.light_reduce
}

impl BlockBuilder {
    /// The default configuration for a block of this name: the six unit
    /// cube faces, the unit bounding box, no id yet, everything else
    /// off.
    pub fn new(name: &str) -> (r: Self)
        ensures
            r.name@ == name@,
            r.id == 0u32,
            r.rotatable == false,
            r.y_rotatable == false,
            r.y_rotatable_segments == YRotatableSegments::All,
            r.is_empty == false,
            r.is_fluid == false,
            r.is_passable == false,
            r.red_light_level == 0u32,
            r.green_light_level == 0u32,
            r.blue_light_level == 0u32,
            r.transparent_standalone == false,
            (exists|b: crate::faces::SixFacesBuilder|
                spec_unit_six_builder(b) && crate::faces::faces_view(r.faces@)
                    == #[trigger] crate::faces::spec_six_faces(b)),
            (r.aabbs@ =~= seq![
                AABB {
                    min_x: 0i64,
                    min_y: 0i64,
                    min_z: 0i64,
                    max_x: 65536i64,
                    max_y: 65536i64,
                    max_z: 65536i64,
                },
            ]),
            r.is_see_through == false,
            r.is_px_transparent == false,
            r.is_py_transparent == false,
            r.is_pz_transparent == false,
            r.is_nx_transparent == false,
            r.is_ny_transparent == false,
            r.is_nz_transparent == false,
            r.is_entity == false,
            r.light_reduce == false,
            r.dynamic_patterns is None,
            r.dynamic_fn is None,
            r.active_updater is None,
            r.active_ticker is None,
    {
        let six = crate::faces::BlockFaces::six_faces();
        let ghost six_snapshot = six;
        let faces = six.build();
        let mut aabbs: Vec<AABB> = Vec::new();
        aabbs.push(AABB::new().build());
        proof {
            assert(spec_unit_six_builder(six_snapshot));
        }
        Self {
            id: 0,
            name: name.to_owned(),
            rotatable: false,
            y_rotatable: false,
            y_rotatable_segments: YRotatableSegments::All,
            is_empty: false,
            is_fluid: false,
            is_passable: false,
            red_light_level: 0,
            green_light_level: 0,
            blue_light_level: 0,
            transparent_standalone: false,
            faces: faces.faces,
            aabbs,
            is_see_through: false,
            is_px_transparent: false,
            is_py_transparent: false,
            is_pz_transparent: false,
            is_nx_transparent: false,
            is_ny_transparent: false,
            is_nz_transparent: false,
            is_entity: false,
            light_reduce: false,
            dynamic_patterns: None,
            dynamic_fn: None,
            active_updater: None,
            active_ticker: None,
        }
    }

    /// Set the id. Id 0 is reserved for air and is refused.
    pub fn id(self, id: u32) -> (r: Result<Self, BlockError>)
        ensures
            id == 0 <==> r is Err,
            r matches Err(e) ==> e == BlockError::ReservedAirId,
            r matches Ok(b) ==> b == (Self { id, ..self }),
    {
        if id == 0 {
            Err(BlockError::ReservedAirId)
        } else {
            Ok(Self { id, ..self })
        }
    }

    /// Set whether the block may be rotated.
    pub fn rotatable(self, rotatable: bool) -> (r: Self)
        ensures
            r == (Self { rotatable, ..self }),
    {
        Self { rotatable, ..self }
    }

    /// Set whether the block may carry a y-axis sub-rotation.
    pub fn y_rotatable(self, y_rotatable: bool) -> (r: Self)
        ensures
            r == (Self { y_rotatable, ..self }),
    {
        Self { y_rotatable, ..self }
    }

    /// Set which y-rotation segments the block may snap to.
    pub fn y_rotatable_segments(self, segments: &YRotatableSegments) -> (r: Self)
        ensures
            r == (Self { y_rotatable_segments: *segments, ..self }),
    {
        Self { y_rotatable_segments: *segments, ..self }
    }

    /// Set whether the block is empty space.
    pub fn is_empty(self, is_empty: bool) -> (r: Self)
        ensures
            r == (Self { is_empty, ..self }),
    {
        Self { is_empty, ..self }
    }

    /// Set whether the block is a fluid.
    pub fn is_fluid(self, is_fluid: bool) -> (r: Self)
        ensures
            r == (Self { is_fluid, ..self }),
    {
        Self { is_fluid, ..self }
    }

    /// Set whether the block can be passed through.
    pub fn is_passable(self, is_passable: bool) -> (r: Self)
        ensures
            r == (Self { is_passable, ..self }),
    {
        Self { is_passable, ..self }
    }

    /// Set the static red torch level.
    pub fn red_light_level(self, red_light_level: u32) -> (r: Self)
        ensures
            r == (Self { red_light_level, ..self }),
    {
        Self { red_light_level, ..self }
    }

    /// Set the static green torch level.
    pub fn green_light_level(self, green_light_level: u32) -> (r: Self)
        ensures
            r == (Self { green_light_level, ..self }),
    {
        Self { green_light_level, ..self }
    }

    /// Set the static blue torch level.
    pub fn blue_light_level(self, blue_light_level: u32) -> (r: Self)
        ensures
            r == (Self { blue_light_level, ..self }),
    {
        Self { blue_light_level, ..self }
    }

    /// Set all three static torch levels at once.
    pub fn torch_light_level(self, light_level: u32) -> (r: Self)
        ensures
            r == (Self {
                red_light_level: light_level,
                green_light_level: light_level,
                blue_light_level: light_level,
                ..self
            }),
    {
        Self {
            red_light_level: light_level,
            green_light_level: light_level,
            blue_light_level: light_level,
            ..self
        }
    }

    /// Set whether transparent faces render individually.
    pub fn transparent_standalone(self, transparent_standalone: bool) -> (r: Self)
        ensures
            r == (Self { transparent_standalone, ..self }),
    {
        Self { transparent_standalone, ..self }
    }

    /// Set the static faces.
    pub fn faces(self, faces: Vec<BlockFace>) -> (r: Self)
        ensures
            r == (Self { faces, ..self }),
    {
        Self { faces, ..self }
    }

    /// Set the static bounding boxes.
    pub fn aabbs(self, aabbs: Vec<AABB>) -> (r: Self)
        ensures
            r == (Self { aabbs, ..self }),
    {
        Self { aabbs, ..self }
    }

    /// Set whether the block is see-through as a whole.
    pub fn is_see_through(self, is_see_through: bool) -> (r: Self)
        ensures
            r == (Self { is_see_through, ..self }),
    {
        Self { is_see_through, ..self }
    }

    /// Set the transparency of all six directions at once. Later
    /// per-direction setters win over this one.
    pub fn is_transparent(self, is_transparent: bool) -> (r: Self)
        ensures
            r == (Self {
                is_px_transparent: is_transparent,
                is_py_transparent: is_transparent,
                is_pz_transparent: is_transparent,
                is_nx_transparent: is_transparent,
                is_ny_transparent: is_transparent,
                is_nz_transparent: is_transparent,
                ..self
            }),
    {
        Self {
            is_px_transparent: is_transparent,
            is_py_transparent: is_transparent,
            is_pz_transparent: is_transparent,
            is_nx_transparent: is_transparent,
            is_ny_transparent: is_transparent,
            is_nz_transparent: is_transparent,
            ..self
        }
    }

    /// Set the transparency of both x directions.
    pub fn is_x_transparent(self, is_x_transparent: bool) -> (r: Self)
        ensures
            r == (Self {
                is_px_transparent: is_x_transparent,
                is_nx_transparent: is_x_transparent,
                ..self
            }),
    {
        Self { is_px_transparent: is_x_transparent, is_nx_transparent: is_x_transparent, ..self }
    }

    /// Set the transparency of both y directions.
    pub fn is_y_transparent(self, is_y_transparent: bool) -> (r: Self)
        ensures
            r == (Self {
                is_py_transparent: is_y_transparent,
                is_ny_transparent: is_y_transparent,
                ..self
            }),
    {
        Self { is_py_transparent: is_y_transparent, is_ny_transparent: is_y_transparent, ..self }
    }

    /// Set the transparency of both z directions.
    pub fn is_z_transparent(self, is_z_transparent: bool) -> (r: Self)
        ensures
            r == (Self {
                is_pz_transparent: is_z_transparent,
                is_nz_transparent: is_z_transparent,
                ..self
            }),
    {
        Self { is_pz_transparent: is_z_transparent, is_nz_transparent: is_z_transparent, ..self }
    }

    /// Set the transparency looking along positive x.
    pub fn is_px_transparent(self, is_px_transparent: bool) -> (r: Self)
        ensures
            r == (Self { is_px_transparent, ..self }),
    {
        Self { is_px_transparent, ..self }
    }

    /// Set the transparency looking along positive y.
    pub fn is_py_transparent(self, is_py_transparent: bool) -> (r: Self)
        ensures
            r == (Self { is_py_transparent, ..self }),
    {
        Self { is_py_transparent, ..self }
    }

    /// Set the transparency looking along positive z.
    pub fn is_pz_transparent(self, is_pz_transparent: bool) -> (r: Self)
        ensures
            r == (Self { is_pz_transparent, ..self }),
    {
        Self { is_pz_transparent, ..self }
    }

    /// Set the transparency looking along negative x.
    pub fn is_nx_transparent(self, is_nx_transparent: bool) -> (r: Self)
        ensures
            r == (Self { is_nx_transparent, ..self }),
    {
        Self { is_nx_transparent, ..self }
    }

    /// Set the transparency looking along negative y.
    pub fn is_ny_transparent(self, is_ny_transparent: bool) -> (r: Self)
        ensures
            r == (Self { is_ny_transparent, ..self }),
    {
        Self { is_ny_transparent, ..self }
    }

    /// Set the transparency looking along negative z.
    pub fn is_nz_transparent(self, is_nz_transparent: bool) -> (r: Self)
        ensures
            r == (Self { is_nz_transparent, ..self }),
    {
        Self { is_nz_transparent, ..self }
    }

    /// Set whether light dims when passing through.
    pub fn light_reduce(self, light_reduce: bool) -> (r: Self)
        ensures
            r == (Self { light_reduce, ..self }),
    {
        Self { light_reduce, ..self }
    }

    /// Set the dynamic patterns.
    pub fn dynamic_patterns(self, patterns: Vec<BlockDynamicPattern>) -> (r: Self)
        ensures
            r == (Self { dynamic_patterns: Some(patterns), ..self }),
    {
        Self { dynamic_patterns: Some(patterns), ..self }
    }

    /// Set the legacy per-position behaviour; the handle arrives already
    /// wrapped, so a behaviour can also be unset with `None`.
    pub fn dynamic_fn(self, dynamic_fn: Option<std::sync::Arc<dyn BlockDynamicFn>>) -> (r: Self)
        ensures
            r == (Self { dynamic_fn, ..self }),
    {
        Self { dynamic_fn, ..self }
    }

    /// Set both halves of the active behaviour; the handles arrive
    /// already wrapped, so the behaviour can also be unset with `None`.
    pub fn active_fn(
        self,
        active_ticker: Option<std::sync::Arc<dyn BlockActiveTicker>>,
        active_updater: Option<std::sync::Arc<dyn BlockActiveUpdater>>,
    ) -> (r: Self)
        ensures
            r == (Self { active_ticker, active_updater, ..self }),
    {
        Self { active_ticker, active_updater, ..self }
    }

    /// Set whether the block is backed by an entity.
    pub fn is_entity(self, is_entity: bool) -> (r: Self)
        ensures
            r == (Self { is_entity, ..self }),
    {
        Self { is_entity, ..self }
    }

    /// Materialize the block. The derived fields come from the
    /// configuration: a block is a light exactly when some torch level
    /// is positive, opaque exactly when no direction is transparent,
    /// dynamic exactly when it has patterns or a legacy behaviour, and
    /// active exactly when it has both halves of the active behaviour.
    pub fn build(self) -> (r: Block)
        ensures
            r.id == self.id,
            r.name == self.name,
            r.rotatable == self.rotatable,
            r.y_rotatable == self.y_rotatable,
            r.y_rotatable_segments == self.y_rotatable_segments,
            r.is_empty == self.is_empty,
            r.is_fluid == self.is_fluid,
            r.is_light == (self.red_light_level > 0 || self.green_light_level > 0
                || self.blue_light_level > 0),
            r.is_passable == self.is_passable,
            r.is_opaque == (!self.is_px_transparent && !self.is_py_transparent
                && !self.is_pz_transparent && !self.is_nx_transparent && !self.is_ny_transparent
                && !self.is_nz_transparent),
            r.red_light_level == self.red_light_level,
            r.green_light_level == self.green_light_level,
            r.blue_light_level == self.blue_light_level,
            r.transparent_standalone == self.transparent_standalone,
            r.faces == self.faces,
            r.aabbs == self.aabbs,
            r.is_see_through == self.is_see_through,
            (r.is_transparent@ =~= seq![
                self.is_px_transparent,
                self.is_py_transparent,
                self.is_pz_transparent,
                self.is_nx_transparent,
                self.is_ny_transparent,
                self.is_nz_transparent,
            ]),
            r.light_reduce == self.light_reduce,
            r.is_dynamic == (self.dynamic_fn is Some || self.dynamic_patterns is Some),
            r.dynamic_patterns == self.dynamic_patterns,
            r.dynamic_fn == self.dynamic_fn,
            r.is_active == (self.active_updater is Some && self.active_ticker is Some),
            r.active_ticker == self.active_ticker,
            r.active_updater == self.active_updater,
            r.is_entity == self.is_entity,
            r.wf(),
    {
        let is_dynamic = self.dynamic_fn.is_some() || self.dynamic_patterns.is_some();
        let is_active = self.active_updater.is_some() && self.active_ticker.is_some();
        Block {
            id: self.id,
            name: self.name,
            rotatable: self.rotatable,
            y_rotatable: self.y_rotatable,
            y_rotatable_segments: self.y_rotatable_segments,
            is_empty: self.is_empty,
            is_fluid: self.is_fluid,
            is_light: self.red_light_level > 0 || self.green_light_level > 0
                || self.blue_light_level > 0,
            is_passable: self.is_passable,
            is_opaque: !self.is_px_transparent && !self.is_py_transparent
                && !self.is_pz_transparent && !self.is_nx_transparent && !self.is_ny_transparent
                && !self.is_nz_transparent,
            red_light_level: self.red_light_level,
            green_light_level: self.green_light_level,
            blue_light_level: self.blue_light_level,
            transparent_standalone: self.transparent_standalone,
            faces: self.faces,
            aabbs: self.aabbs,
            is_see_through: self.is_see_through,
            is_transparent: [
                self.is_px_transparent,
                self.is_py_transparent,
                self.is_pz_transparent,
                self.is_nx_transparent,
                self.is_ny_transparent,
                self.is_nz_transparent,
            ],
            light_reduce: self.light_reduce,
            is_dynamic,
            dynamic_patterns: self.dynamic_patterns,
            dynamic_fn: self.dynamic_fn,
            is_active,
            active_ticker: self.active_ticker,
            active_updater: self.active_updater,
            is_entity: self.is_entity,
        }
    }
}

impl Block {
    /// Start building a block of this name.
    pub fn new(name: &str) -> (r: BlockBuilder)
        ensures
            r.name@ == name@,
            r.id == 0u32,
            r.dynamic_patterns is None,
            r.dynamic_fn is None,
            r.active_updater is None,
            r.active_ticker is None,
    {
        BlockBuilder::new(name)
    }
}

/// Law: the combined transparency of a pattern is the union over its
/// matching parts. Direction `k` is transparent in the result exactly
/// when some part whose rule holds is transparent there, however many
/// parts match: transparency accumulates, it is not first-match-wins.
pub proof fn lemma_transparency_union<V: VoxelAccess>(
    parts: Seq<BlockConditionalPart>,
    pos: Vec3<i32>,
    space: &V,
    k: int,
)
    ensures
        spec_combined_transparent(parts, pos, space, k) <==> exists|i: int|
            0 <= i < parts.len() && spec_rule_holds(
                (#[trigger] parts[i]).rule,
                pos,
                space,
            ) && parts[i].is_transparent@[k],
    decreases parts.len(),
{
    if parts.len() == 0 {
    } else {
        lemma_transparency_union(parts.drop_first(), pos, space, k);
        if spec_combined_transparent(parts, pos, space, k) {
            if spec_rule_holds(parts[0].rule, pos, space) && parts[0].is_transparent@[k] {
                assert(spec_rule_holds(parts[0].rule, pos, space) && parts[0].is_transparent@[k]);
            } else {
                let i = choose|i: int|
                    0 <= i < parts.drop_first().len() && spec_rule_holds(
                        (#[trigger] parts.drop_first()[i]).rule,
                        pos,
                        space,
                    ) && parts.drop_first()[i].is_transparent@[k];
                assert(parts.drop_first()[i] == parts[i + 1]);
            }
        }
        if exists|i: int|
            0 <= i < parts.len() && spec_rule_holds((#[trigger] parts[i]).rule, pos, space)
                && parts[i].is_transparent@[k] {
            let i = choose|i: int|
                0 <= i < parts.len() && spec_rule_holds((#[trigger] parts[i]).rule, pos, space)
                    && parts[i].is_transparent@[k];
            if i > 0 {
                assert(parts.drop_first()[i - 1] == parts[i]);
            }
        }
    }
}

/// The first matching part settles the sunlight channel at zero, so a
/// parts probe for sunlight never yields a positive level.
proof fn lemma_sunlight_probe_parts_zero<V: VoxelAccess>(
    parts: Seq<BlockConditionalPart>,
    pos: Vec3<i32>,
    space: &V,
)
    ensures
        spec_torch_probe_parts(parts, pos, space, LightColor::Sunlight) matches Some(l) ==> l == 0,
    decreases parts.len(),
{
    if parts.len() > 0 {
        lemma_sunlight_probe_parts_zero(parts.drop_first(), pos, space);
    }
}

/// No pattern settles the sunlight channel at a positive level.
proof fn lemma_sunlight_probe_patterns_zero<V: VoxelAccess>(
    patterns: Seq<BlockDynamicPattern>,
    pos: Vec3<i32>,
    space: &V,
)
    ensures
        spec_torch_probe_patterns(patterns, pos, space, LightColor::Sunlight) matches Some(l) ==> l
            == 0,
    decreases patterns.len(),
{
    if patterns.len() > 0 {
        lemma_sunlight_probe_parts_zero(patterns[0].parts@, pos, space);
        lemma_sunlight_probe_patterns_zero(patterns.drop_first(), pos, space);
    }
}

/// Law: a block without dynamic patterns reads its torch level from its
/// static levels alone, on every channel and at every position.
pub proof fn lemma_torch_light_static_fallback<V: VoxelAccess>(
    b: &Block,
    pos: Vec3<i32>,
    space: &V,
    color: LightColor,
)
    requires
        b.dynamic_patterns is None,
    ensures
        spec_torch_light_at(b, pos, space, color) == spec_static_torch(b, color),
{
}

/// Law: the sunlight channel never has a torch level. Whatever the
/// block, the position and the patterns, asking for the sunlight
/// channel yields zero.
pub proof fn lemma_torch_light_sunlight_zero<V: VoxelAccess>(b: &Block, pos: Vec3<i32>, space: &V)
    ensures
        spec_torch_light_at(b, pos, space, LightColor::Sunlight) == 0,
{
    match b.dynamic_patterns {
        Some(ps) => {
            lemma_sunlight_probe_patterns_zero(ps@, pos, space);
        },
        None => {},
    }
}

} // verus!
