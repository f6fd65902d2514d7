//! Face geometry.
//!
//! A block renders as a list of quads. Two builders produce them: the
//! six-face builder makes one axis-named quad per cube face, with the
//! geometry and the texture mapping scaled and offset independently;
//! the diagonal builder makes the X-shaped cross of two (or four
//! half-width) quads used for foliage. Both builders are chainable
//! value builders: every setter returns a new configuration and only
//! `build` materializes geometry.

use vstd::prelude::*;
use vstd::string::StringExecFns;

use crate::math::{bounded3, tdiv, Vec2, Vec3, FIXED_HALF, FIXED_ONE, MAX_COORD};
use crate::rotation::{spec_rotate_node, BlockRotation};

verus! {

/// Index of the px face in six-face builder output and flag arrays.
pub const SIX_FACES_PX: usize = 0;

/// Index of the py face in six-face builder output and flag arrays.
pub const SIX_FACES_PY: usize = 1;

/// Index of the pz face in six-face builder output and flag arrays.
pub const SIX_FACES_PZ: usize = 2;

/// Index of the nx face in six-face builder output and flag arrays.
pub const SIX_FACES_NX: usize = 3;

/// Index of the ny face in six-face builder output and flag arrays.
pub const SIX_FACES_NY: usize = 4;

/// Index of the nz face in six-face builder output and flag arrays.
pub const SIX_FACES_NZ: usize = 5;

/// Half of `MAX_COORD`: the magnitude every scale and offset handed to
/// a face builder may have, so that a scale plus an offset still fits
/// the rotation routines.
pub const MAX_FACE_COORD: i64 = 549755813888;

/// A texture-atlas range, in fixed-point texture coordinates. Freshly
/// built faces carry the empty range; the atlas fills it in later,
/// outside this crate.
#[derive(Debug, Clone, Copy, PartialEq, Eq, Structural)]
pub struct UV {
    /// First texture column.
    pub start_u: i64,
    /// Last texture column.
    pub end_u: i64,
    /// First texture row.
    pub start_v: i64,
    /// Last texture row.
    pub end_v: i64,
}

impl Default for UV {
    /// The empty range.
    fn default() -> (r: Self)
        ensures
            r == (UV { start_u: 0i64, end_u: 0i64, start_v: 0i64, end_v: 0i64 }),
    {
        UV { start_u: 0, end_u: 0, start_v: 0, end_v: 0 }
    }
}

/// One vertex of a face: a position and its texture coordinate.
#[derive(Debug, Clone, Copy, PartialEq, Eq, Structural)]
pub struct CornerData {
    /// Fixed-point position of the vertex.
    pub pos: Vec3<i64>,
    /// Fixed-point texture coordinate of the vertex.
    pub uv: Vec2<i64>,
}

/// A named quad: four corners, a face-normal direction, and the two
/// independence flags.
#[derive(Debug, PartialEq)]
pub struct BlockFace {
    /// Name of the face, built from the builder's prefix, concatenation
    /// token, axis word and suffix.
    pub name: String,
    /// Whether the face stays out of the shared standalone atlas range.
    pub independent: bool,
    /// Whether the face is excluded from neighbour-blend grouping.
    pub isolated: bool,
    /// The outward normal direction, one unit per axis.
    pub dir: Vec3<i32>,
    /// The four vertices of the quad.
    pub corners: [CornerData; 4],
    /// The texture-atlas range, empty until the atlas fills it in.
    pub range: UV,
}

/// The mathematical model of a face: the same data with the name as a
/// character sequence and the numbers as integers.
#[verifier::ext_equal]
pub struct FaceModel {
    /// Name of the face.
    pub name: Seq<char>,
    /// Whether the face stays out of the shared standalone atlas range.
    pub independent: bool,
    /// Whether the face is excluded from neighbour-blend grouping.
    pub isolated: bool,
    /// The outward normal direction.
    pub dir: Vec3<int>,
    /// The four corners, each a position and a texture coordinate.
    pub corners: Seq<(Vec3<int>, Vec2<int>)>,
    /// The texture-atlas range.
    pub range: (int, int, int, int),
}

/// The model of a face value.
pub open spec fn face_view(f: BlockFace) -> FaceModel {
    FaceModel {
        name: f.name@,
        independent: f.independent,
        isolated: f.isolated,
        dir: Vec3(f.dir.0 as int, f.dir.1 as int, f.dir.2 as int),
        corners: seq![
            (f.corners[0].pos@, f.corners[0].uv@),
            (f.corners[1].pos@, f.corners[1].uv@),
            (f.corners[2].pos@, f.corners[2].uv@),
            (f.corners[3].pos@, f.corners[3].uv@),
        ],
        range: (f.range.start_u as int, f.range.end_u as int, f.range.start_v as int,
        f.range.end_v as int),
    }
}

/// The model of a face list.
pub open spec fn faces_view(faces: Seq<BlockFace>) -> Seq<FaceModel> {
    faces.map_values(|f: BlockFace| face_view(f))
}

impl Clone for BlockFace {
    /// An exact copy of the face.
    fn clone(&self) -> (r: Self)
        ensures
            r == *self,
    {
        BlockFace {
            name: self.name.clone(),
            independent: self.independent,
            isolated: self.isolated,
            dir: self.dir,
            corners: self.corners,
            range: self.range,
        }
    }
}

impl BlockFace {
    /// A face with the given parts and the empty texture range.
    pub fn new(
        name: String,
        independent: bool,
        isolated: bool,
        dir: Vec3<i32>,
        corners: [CornerData; 4],
    ) -> (r: Self)
        ensures
            r == (BlockFace {
                name,
                independent,
                isolated,
                dir,
                corners,
                range: UV { start_u: 0i64, end_u: 0i64, start_v: 0i64, end_v: 0i64 },
            }),
    {
        Self { name, independent, isolated, dir, corners, range: UV::default() }
    }

    /// Mark the face as independent of the shared atlas range.
    pub fn into_independent(&mut self)
        ensures
            *final(self) == (BlockFace { independent: true, ..*old(self) }),
    {
        self.independent = true;
    }

    /// Mark the face as excluded from neighbour-blend grouping.
    pub fn into_isolated(&mut self)
        ensures
            *final(self) == (BlockFace { isolated: true, ..*old(self) }),
    {
        self.isolated = true;
    }
}

/// An ordered, appendable list of faces.
#[derive(Debug, Clone, PartialEq)]
pub struct BlockFaces {
    /// The faces, in build order.
    pub faces: Vec<BlockFace>,
}

impl BlockFaces {
    /// The empty face list.
    pub fn new() -> (r: Self)
        ensures
            r.faces@ =~= Seq::<BlockFace>::empty(),
    {
        Self { faces: vec![] }
    }

    /// The empty face list.
    pub fn empty() -> (r: Self)
        ensures
            r.faces@ =~= Seq::<BlockFace>::empty(),
    {
        Self { faces: Vec::new() }
    }

    /// A face list holding exactly the given faces.
    pub fn from_faces(faces: Vec<BlockFace>) -> (r: Self)
        ensures
            r.faces == faces,
    {
        Self { faces }
    }

    /// Mark the face at `index` independent; an index past the end
    /// changes nothing.
    pub fn independent_at(self, index: usize) -> (r: Self)
        ensures
            index < self.faces@.len() ==> r.faces@ == self.faces@.update(
                index as int,
                (BlockFace { independent: true, ..self.faces@[index as int] }),
            ),
            index >= self.faces@.len() ==> r == self,
    {
        let mut this = self;
        if index >= this.faces.len() {
            return this;
        }
        this.faces[index].into_independent();
        this
    }

    /// Mark the face at each listed index independent, in order.
    pub fn independent_at_all(self, indices: Vec<usize>) -> (r: Self)
        ensures
            r.faces@ == spec_mark_independent(self.faces@, indices@),
    {
        let mut this = self;
        let mut i: usize = 0;
        proof {
            assert(indices@.skip(0) =~= indices@);
        }
        while i < indices.len()
            invariant
                i <= indices@.len(),
                spec_mark_independent(this.faces@, indices@.skip(i as int))
                    == spec_mark_independent(self.faces@, indices@),
            decreases indices@.len() - i,
        {
            proof {
                assert(indices@.skip(i as int).drop_first() =~= indices@.skip(i as int + 1));
            }
            this = this.independent_at(indices[i]);
            i = i + 1;
        }
        proof {
            assert(indices@.skip(indices@.len() as int) =~= Seq::<usize>::empty());
        }
        this
    }

    /// Mark the face at `index` isolated; an index past the end changes
    /// nothing.
    pub fn isolated_at(self, index: usize) -> (r: Self)
        ensures
            index < self.faces@.len() ==> r.faces@ == self.faces@.update(
                index as int,
                (BlockFace { isolated: true, ..self.faces@[index as int] }),
            ),
            index >= self.faces@.len() ==> r == self,
    {
        let mut this = self;
        if index >= this.faces.len() {
            return this;
        }
        this.faces[index].into_isolated();
        this
    }

    /// Mark the face at each listed index isolated, in order.
    pub fn isolated_at_all(self, indices: Vec<usize>) -> (r: Self)
        ensures
            r.faces@ == spec_mark_isolated(self.faces@, indices@),
    {
        let mut this = self;
        let mut i: usize = 0;
        proof {
            assert(indices@.skip(0) =~= indices@);
        }
        while i < indices.len()
            invariant
                i <= indices@.len(),
                spec_mark_isolated(this.faces@, indices@.skip(i as int))
                    == spec_mark_isolated(self.faces@, indices@),
            decreases indices@.len() - i,
        {
            proof {
                assert(indices@.skip(i as int).drop_first() =~= indices@.skip(i as int + 1));
            }
            this = this.isolated_at(indices[i]);
            i = i + 1;
        }
        proof {
            assert(indices@.skip(indices@.len() as int) =~= Seq::<usize>::empty());
        }
        this
    }

    /// Append the other list's faces after this list's faces.
    pub fn join(self, other: Self) -> (r: Self)
        ensures
            r.faces@ == self.faces@ + other.faces@,
    {
        let mut this = self;
        let mut that = other;
        this.faces.append(&mut that.faces);
        this
    }
}

/// The face list after marking each listed index independent, in order.
pub open spec fn spec_mark_independent(faces: Seq<BlockFace>, indices: Seq<usize>) -> Seq<
    BlockFace,
>
    decreases indices.len(),
{
    if indices.len() == 0 {
        faces
    } else {
        let i = indices[0];
        let marked = if i < faces.len() {
            faces.update(i as int, (BlockFace { independent: true, ..faces[i as int] }))
        } else {
            faces
        };
        spec_mark_independent(marked, indices.drop_first())
    }
}

/// The face list after marking each listed index isolated, in order.
pub open spec fn spec_mark_isolated(faces: Seq<BlockFace>, indices: Seq<usize>) -> Seq<BlockFace>
    decreases indices.len(),
{
    if indices.len() == 0 {
        faces
    } else {
        let i = indices[0];
        let marked = if i < faces.len() {
            faces.update(i as int, (BlockFace { isolated: true, ..faces[i as int] }))
        } else {
            faces
        };
        spec_mark_isolated(marked, indices.drop_first())
    }
}

/// The name a builder gives a face: prefix, concatenation token, axis
/// word, concatenation token again, suffix.
pub open spec fn spec_face_name(
    prefix: Seq<char>,
    concat: Seq<char>,
    side: Seq<char>,
    suffix: Seq<char>,
) -> Seq<char> {
    prefix + concat + side + concat + suffix
}

/// Build a face name from its four parts.
fn make_name(prefix: &String, concat: &String, side: &str, suffix: &String) -> (r: String)
    ensures
        r@ == spec_face_name(prefix@, concat@, side@, suffix@),
{
    let mut name = String::new();
    name.append(prefix.as_str());
    name.append(concat.as_str());
    name.append(side);
    name.append(concat.as_str());
    name.append(suffix.as_str());
    proof {
        assert(name@ =~= spec_face_name(prefix@, concat@, side@, suffix@));
    }
    name
}

/// Where a builder corner lands: through `rotate_node` with the y spin
/// and the unit translation when the builder carries a rotation,
/// unchanged otherwise.
pub open spec fn spec_place(rotation: Option<BlockRotation>, p: Vec3<int>) -> Vec3<int> {
    match rotation {
        Some(r) => spec_rotate_node(r, p, true, true),
        None => p,
    }
}

/// Pass a corner position through the builder's rotation, if any.
fn place(rotation: &Option<BlockRotation>, x: i64, y: i64, z: i64) -> (r: Vec3<i64>)
    requires
        bounded3(Vec3(x as int, y as int, z as int), MAX_COORD as int),
    ensures
        r@ == spec_place(*rotation, Vec3(x as int, y as int, z as int)),
{
    match rotation {
        Some(rot) => {
            let mut v = Vec3(x, y, z);
            rot.rotate_node(&mut v, true, true);
            v
        },
        None => Vec3(x, y, z),
    }
}

/// A chainable configuration for the six cube faces of a block.
#[derive(Debug, Clone, PartialEq)]
pub struct SixFacesBuilder {
    /// Geometry scale along x.
    pub scale_x: i64,
    /// Geometry scale along y.
    pub scale_y: i64,
    /// Geometry scale along z.
    pub scale_z: i64,
    /// Geometry offset along x.
    pub offset_x: i64,
    /// Geometry offset along y.
    pub offset_y: i64,
    /// Geometry offset along z.
    pub offset_z: i64,
    /// Texture scale along x.
    pub uv_scale_x: i64,
    /// Texture scale along y.
    pub uv_scale_y: i64,
    /// Texture scale along z.
    pub uv_scale_z: i64,
    /// Texture offset along x.
    pub uv_offset_x: i64,
    /// Texture offset along y.
    pub uv_offset_y: i64,
    /// Texture offset along z.
    pub uv_offset_z: i64,
    /// Prefix of every face name.
    pub prefix: String,
    /// Suffix of every face name.
    pub suffix: String,
    /// Token put between the name parts.
    pub concat: String,
    /// Per-face independence flags, indexed by the `SIX_FACES` order.
    pub independence: [bool; 6],
    /// Per-face isolation flags, indexed by the `SIX_FACES` order.
    pub isolation: [bool; 6],
    /// Whether the texture scale and offset follow the geometry's.
    pub auto_uv_offset: bool,
    /// A rotation to pass every corner through, if any.
    pub rotation: Option<BlockRotation>,
}

/// The texture x offset the builder really uses.
pub open spec fn eff_uv_offset_x(b: SixFacesBuilder) -> int {
    if b.auto_uv_offset {
        b.offset_x as int
    } else {
        b.uv_offset_x as int
    }
}

/// The texture y offset the builder really uses.
pub open spec fn eff_uv_offset_y(b: SixFacesBuilder) -> int {
    if b.auto_uv_offset {
        b.offset_y as int
    } else {
        b.uv_offset_y as int
    }
}

/// The texture z offset the builder really uses.
pub open spec fn eff_uv_offset_z(b: SixFacesBuilder) -> int {
    if b.auto_uv_offset {
        b.offset_z as int
    } else {
        b.uv_offset_z as int
    }
}

/// The texture x scale the builder really uses.
pub open spec fn eff_uv_scale_x(b: SixFacesBuilder) -> int {
    if b.auto_uv_offset {
        b.scale_x as int
    } else {
        b.uv_scale_x as int
    }
}

/// The texture y scale the builder really uses.
pub open spec fn eff_uv_scale_y(b: SixFacesBuilder) -> int {
    if b.auto_uv_offset {
        b.scale_y as int
    } else {
        b.uv_scale_y as int
    }
}

/// The texture z scale the builder really uses.
pub open spec fn eff_uv_scale_z(b: SixFacesBuilder) -> int {
    if b.auto_uv_offset {
        b.scale_z as int
    } else {
        b.uv_scale_z as int
    }
}

/// Every scale and offset of the builder is small enough for the sums
/// and the rotation routines.
pub open spec fn six_in_range(b: SixFacesBuilder) -> bool {
    &&& -MAX_FACE_COORD <= b.scale_x <= MAX_FACE_COORD
    &&& -MAX_FACE_COORD <= b.scale_y <= MAX_FACE_COORD
    &&& -MAX_FACE_COORD <= b.scale_z <= MAX_FACE_COORD
    &&& -MAX_FACE_COORD <= b.offset_x <= MAX_FACE_COORD
    &&& -MAX_FACE_COORD <= b.offset_y <= MAX_FACE_COORD
    &&& -MAX_FACE_COORD <= b.offset_z <= MAX_FACE_COORD
    &&& -MAX_FACE_COORD <= b.uv_scale_x <= MAX_FACE_COORD
    &&& -MAX_FACE_COORD <= b.uv_scale_y <= MAX_FACE_COORD
    &&& -MAX_FACE_COORD <= b.uv_scale_z <= MAX_FACE_COORD
    &&& -MAX_FACE_COORD <= b.uv_offset_x <= MAX_FACE_COORD
    &&& -MAX_FACE_COORD <= b.uv_offset_y <= MAX_FACE_COORD
    &&& -MAX_FACE_COORD <= b.uv_offset_z <= MAX_FACE_COORD
}

/// The px face of the six-face model.
pub open spec fn spec_six_px(b: SixFacesBuilder) -> FaceModel {
    let on = b.independence[0] || b.isolation[0];
    let sox = b.scale_x as int + b.offset_x as int;
    let soy = b.scale_y as int + b.offset_y as int;
    let soz = b.scale_z as int + b.offset_z as int;
    FaceModel {
        name: spec_face_name(b.prefix@, b.concat@, "px"@, b.suffix@),
        independent: b.independence[0],
        isolated: b.isolation[0],
        dir: Vec3(1, 0, 0),
        corners: seq![
            (
                spec_place(b.rotation, Vec3(sox, soy, soz)),
                if on { Vec2(0, 65536) } else {
                    Vec2(eff_uv_offset_z(b), eff_uv_scale_y(b) + eff_uv_offset_y(b))
                },
            ),
            (
                spec_place(b.rotation, Vec3(sox, b.offset_y as int, soz)),
                if on { Vec2(0, 0) } else { Vec2(eff_uv_offset_z(b), eff_uv_offset_y(b)) },
            ),
            (
                spec_place(b.rotation, Vec3(sox, soy, b.offset_z as int)),
                if on { Vec2(65536, 65536) } else {
                    Vec2(
                        eff_uv_offset_z(b) + eff_uv_scale_z(b),
                        eff_uv_offset_y(b) + eff_uv_scale_y(b),
                    )
                },
            ),
            (
                spec_place(b.rotation, Vec3(sox, b.offset_y as int, b.offset_z as int)),
                if on { Vec2(65536, 0) } else {
                    Vec2(eff_uv_offset_z(b) + eff_uv_scale_z(b), eff_uv_offset_y(b))
                },
            ),
        ],
        range: (0, 0, 0, 0),
    }
}

/// The py face of the six-face model: its texture axes are the x and z
/// quantities, never the y ones.
pub open spec fn spec_six_py(b: SixFacesBuilder) -> FaceModel {
    let on = b.independence[1] || b.isolation[1];
    let sox = b.scale_x as int + b.offset_x as int;
    let soy = b.scale_y as int + b.offset_y as int;
    let soz = b.scale_z as int + b.offset_z as int;
    FaceModel {
        name: spec_face_name(b.prefix@, b.concat@, "py"@, b.suffix@),
        independent: b.independence[1],
        isolated: b.isolation[1],
        dir: Vec3(0, 1, 0),
        corners: seq![
            (
                spec_place(b.rotation, Vec3(b.offset_x as int, soy, soz)),
                if on { Vec2(65536, 65536) } else {
                    Vec2(
                        eff_uv_offset_x(b) + eff_uv_scale_x(b),
                        eff_uv_offset_z(b) + eff_uv_scale_z(b),
                    )
                },
            ),
            (
                spec_place(b.rotation, Vec3(sox, soy, soz)),
                if on { Vec2(0, 65536) } else {
                    Vec2(eff_uv_offset_x(b), eff_uv_offset_z(b) + eff_uv_scale_z(b))
                },
            ),
            (
                spec_place(b.rotation, Vec3(b.offset_x as int, soy, b.offset_z as int)),
                if on { Vec2(65536, 0) } else {
                    Vec2(eff_uv_offset_x(b) + eff_uv_scale_x(b), eff_uv_offset_z(b))
                },
            ),
            (
                spec_place(b.rotation, Vec3(sox, soy, b.offset_z as int)),
                if on { Vec2(0, 0) } else { Vec2(eff_uv_offset_x(b), eff_uv_offset_z(b)) },
            ),
        ],
        range: (0, 0, 0, 0),
    }
}

/// The pz face of the six-face model.
pub open spec fn spec_six_pz(b: SixFacesBuilder) -> FaceModel {
    let on = b.independence[2] || b.isolation[2];
    let sox = b.scale_x as int + b.offset_x as int;
    let soy = b.scale_y as int + b.offset_y as int;
    let soz = b.scale_z as int + b.offset_z as int;
    FaceModel {
        name: spec_face_name(b.prefix@, b.concat@, "pz"@, b.suffix@),
        independent: b.independence[2],
        isolated: b.isolation[2],
        dir: Vec3(0, 0, 1),
        corners: seq![
            (
                spec_place(b.rotation, Vec3(b.offset_x as int, b.offset_y as int, soz)),
                if on { Vec2(0, 0) } else { Vec2(eff_uv_offset_x(b), eff_uv_offset_y(b)) },
            ),
            (
                spec_place(b.rotation, Vec3(sox, b.offset_y as int, soz)),
                if on { Vec2(65536, 0) } else {
                    Vec2(eff_uv_offset_x(b) + eff_uv_scale_x(b), eff_uv_offset_y(b))
                },
            ),
            (
                spec_place(b.rotation, Vec3(b.offset_x as int, soy, soz)),
                if on { Vec2(0, 65536) } else {
                    Vec2(eff_uv_offset_x(b), eff_uv_offset_y(b) + eff_uv_scale_y(b))
                },
            ),
            (
                spec_place(b.rotation, Vec3(sox, soy, soz)),
                if on { Vec2(65536, 65536) } else {
                    Vec2(
                        eff_uv_offset_x(b) + eff_uv_scale_x(b),
                        eff_uv_offset_y(b) + eff_uv_scale_y(b),
                    )
                },
            ),
        ],
        range: (0, 0, 0, 0),
    }
}

/// The nx face of the six-face model.
pub open spec fn spec_six_nx(b: SixFacesBuilder) -> FaceModel {
    let on = b.independence[3] || b.isolation[3];
    let soy = b.scale_y as int + b.offset_y as int;
    let soz = b.scale_z as int + b.offset_z as int;
    FaceModel {
        name: spec_face_name(b.prefix@, b.concat@, "nx"@, b.suffix@),
        independent: b.independence[3],
        isolated: b.isolation[3],
        dir: Vec3(-1, 0, 0),
        corners: seq![
            (
                spec_place(b.rotation, Vec3(b.offset_x as int, soy, b.offset_z as int)),
                if on { Vec2(0, 65536) } else {
                    Vec2(eff_uv_offset_z(b), eff_uv_scale_y(b) + eff_uv_offset_y(b))
                },
            ),
            (
                spec_place(
                    b.rotation,
                    Vec3(b.offset_x as int, b.offset_y as int, b.offset_z as int),
                ),
                if on { Vec2(0, 0) } else { Vec2(eff_uv_offset_z(b), eff_uv_offset_y(b)) },
            ),
            (
                spec_place(b.rotation, Vec3(b.offset_x as int, soy, soz)),
                if on { Vec2(65536, 65536) } else {
                    Vec2(
                        eff_uv_offset_z(b) + eff_uv_scale_z(b),
                        eff_uv_offset_y(b) + eff_uv_scale_y(b),
                    )
                },
            ),
            (
                spec_place(b.rotation, Vec3(b.offset_x as int, b.offset_y as int, soz)),
                if on { Vec2(65536, 0) } else {
                    Vec2(eff_uv_offset_z(b) + eff_uv_scale_z(b), eff_uv_offset_y(b))
                },
            ),
        ],
        range: (0, 0, 0, 0),
    }
}

/// The ny face of the six-face model: its texture axes are the x and z
/// quantities, never the y ones.
pub open spec fn spec_six_ny(b: SixFacesBuilder) -> FaceModel {
    let on = b.independence[4] || b.isolation[4];
    let sox = b.scale_x as int + b.offset_x as int;
    let soz = b.scale_z as int + b.offset_z as int;
    FaceModel {
        name: spec_face_name(b.prefix@, b.concat@, "ny"@, b.suffix@),
        independent: b.independence[4],
        isolated: b.isolation[4],
        dir: Vec3(0, -1, 0),
        corners: seq![
            (
                spec_place(b.rotation, Vec3(sox, b.offset_y as int, soz)),
                if on { Vec2(65536, 0) } else {
                    Vec2(eff_uv_offset_x(b) + eff_uv_scale_x(b), eff_uv_offset_z(b))
                },
            ),
            (
                spec_place(b.rotation, Vec3(b.offset_x as int, b.offset_y as int, soz)),
                if on { Vec2(0, 0) } else { Vec2(eff_uv_offset_x(b), eff_uv_offset_z(b)) },
            ),
            (
                spec_place(b.rotation, Vec3(sox, b.offset_y as int, b.offset_z as int)),
                if on { Vec2(65536, 65536) } else {
                    Vec2(
                        eff_uv_offset_x(b) + eff_uv_scale_x(b),
                        eff_uv_offset_z(b) + eff_uv_scale_z(b),
                    )
                },
            ),
            (
                spec_place(
                    b.rotation,
                    Vec3(b.offset_x as int, b.offset_y as int, b.offset_z as int),
                ),
                if on { Vec2(0, 65536) } else {
                    Vec2(eff_uv_offset_x(b), eff_uv_offset_z(b) + eff_uv_scale_z(b))
                },
            ),
        ],
        range: (0, 0, 0, 0),
    }
}

/// The nz face of the six-face model.
pub open spec fn spec_six_nz(b: SixFacesBuilder) -> FaceModel {
    let on = b.independence[5] || b.isolation[5];
    let sox = b.scale_x as int + b.offset_x as int;
    let soy = b.scale_y as int + b.offset_y as int;
    FaceModel {
        name: spec_face_name(b.prefix@, b.concat@, "nz"@, b.suffix@),
        independent: b.independence[5],
        isolated: b.isolation[5],
        dir: Vec3(0, 0, -1),
        corners: seq![
            (
                spec_place(b.rotation, Vec3(sox, b.offset_y as int, b.offset_z as int)),
                if on { Vec2(0, 0) } else { Vec2(eff_uv_offset_x(b), eff_uv_offset_y(b)) },
            ),
            (
                spec_place(
                    b.rotation,
                    Vec3(b.offset_x as int, b.offset_y as int, b.offset_z as int),
                ),
                if on { Vec2(65536, 0) } else {
                    Vec2(eff_uv_offset_x(b) + eff_uv_scale_x(b), eff_uv_offset_y(b))
                },
            ),
            (
                spec_place(b.rotation, Vec3(sox, soy, b.offset_z as int)),
                if on { Vec2(0, 65536) } else {
                    Vec2(eff_uv_offset_x(b), eff_uv_offset_y(b) + eff_uv_scale_y(b))
                },
            ),
            (
                spec_place(b.rotation, Vec3(b.offset_x as int, soy, b.offset_z as int)),
                if on { Vec2(65536, 65536) } else {
                    Vec2(
                        eff_uv_offset_x(b) + eff_uv_scale_x(b),
                        eff_uv_offset_y(b) + eff_uv_scale_y(b),
                    )
                },
            ),
        ],
        range: (0, 0, 0, 0),
    }
}

/// The whole six-face model, in the px, py, pz, nx, ny, nz order.
pub open spec fn spec_six_faces(b: SixFacesBuilder) -> Seq<FaceModel> {
    seq![
        spec_six_px(b),
        spec_six_py(b),
        spec_six_pz(b),
        spec_six_nx(b),
        spec_six_ny(b),
        spec_six_nz(b),
    ]
}

/// All fields of the two builders except the independence and
/// isolation flags.
pub open spec fn six_same_but_flags(a: SixFacesBuilder, b: SixFacesBuilder) -> bool {
    &&& a.scale_x == b.scale_x
    &&& a.scale_y == b.scale_y
    &&& a.scale_z == b.scale_z
    &&& a.offset_x == b.offset_x
    &&& a.offset_y == b.offset_y
    &&& a.offset_z == b.offset_z
    &&& a.uv_scale_x == b.uv_scale_x
    &&& a.uv_scale_y == b.uv_scale_y
    &&& a.uv_scale_z == b.uv_scale_z
    &&& a.uv_offset_x == b.uv_offset_x
    &&& a.uv_offset_y == b.uv_offset_y
    &&& a.uv_offset_z == b.uv_offset_z
    &&& a.prefix == b.prefix
    &&& a.suffix == b.suffix
    &&& a.concat == b.concat
    &&& a.auto_uv_offset == b.auto_uv_offset
    &&& a.rotation == b.rotation
}

/// All fields of the two builders except the three name parts.
pub open spec fn six_same_shape(a: SixFacesBuilder, b: SixFacesBuilder) -> bool {
    &&& a.scale_x == b.scale_x
    &&& a.scale_y == b.scale_y
    &&& a.scale_z == b.scale_z
    &&& a.offset_x == b.offset_x
    &&& a.offset_y == b.offset_y
    &&& a.offset_z == b.offset_z
    &&& a.uv_scale_x == b.uv_scale_x
    &&& a.uv_scale_y == b.uv_scale_y
    &&& a.uv_scale_z == b.uv_scale_z
    &&& a.uv_offset_x == b.uv_offset_x
    &&& a.uv_offset_y == b.uv_offset_y
    &&& a.uv_offset_z == b.uv_offset_z
    &&& a.independence == b.independence
    &&& a.isolation == b.isolation
    &&& a.auto_uv_offset == b.auto_uv_offset
    &&& a.rotation == b.rotation
}

impl SixFacesBuilder {
    /// The default configuration: unit scales, zero offsets, empty name
    /// parts, no flags, no rotation.
    pub fn new() -> (r: Self)
        ensures
            six_same_shape(
                r,
                (SixFacesBuilder {
                    scale_x: FIXED_ONE as i64,
                    scale_y: FIXED_ONE as i64,
                    scale_z: FIXED_ONE as i64,
                    offset_x: 0i64,
                    offset_y: 0i64,
                    offset_z: 0i64,
                    uv_scale_x: FIXED_ONE as i64,
                    uv_scale_y: FIXED_ONE as i64,
                    uv_scale_z: FIXED_ONE as i64,
                    uv_offset_x: 0i64,
                    uv_offset_y: 0i64,
                    uv_offset_z: 0i64,
                    prefix: r.prefix,
                    suffix: r.suffix,
                    concat: r.concat,
                    independence: [false, false, false, false, false, false],
                    isolation: [false, false, false, false, false, false],
                    auto_uv_offset: false,
                    rotation: None,
                }),
            ),
            r.prefix@ == Seq::<char>::empty(),
            r.suffix@ == Seq::<char>::empty(),
            r.concat@ == Seq::<char>::empty(),
    {
        Self {
            scale_x: FIXED_ONE,
            scale_y: FIXED_ONE,
            scale_z: FIXED_ONE,
            offset_x: 0,
            offset_y: 0,
            offset_z: 0,
            uv_scale_x: FIXED_ONE,
            uv_scale_y: FIXED_ONE,
            uv_scale_z: FIXED_ONE,
            uv_offset_x: 0,
            uv_offset_y: 0,
            uv_offset_z: 0,
            prefix: String::new(),
            suffix: String::new(),
            concat: String::new(),
            independence: [false, false, false, false, false, false],
            isolation: [false, false, false, false, false, false],
            auto_uv_offset: false,
            rotation: None,
        }
    }

    /// Set the geometry scale along x.
    pub fn scale_x(self, scale_x: i64) -> (r: Self)
        ensures
            r == (Self { scale_x, ..self }),
    {
        Self { scale_x, ..self }
    }

    /// Set the geometry scale along y.
    pub fn scale_y(self, scale_y: i64) -> (r: Self)
        ensures
            r == (Self { scale_y, ..self }),
    {
        Self { scale_y, ..self }
    }

    /// Set the geometry scale along z.
    pub fn scale_z(self, scale_z: i64) -> (r: Self)
        ensures
            r == (Self { scale_z, ..self }),
    {
        Self { scale_z, ..self }
    }

    /// Set the geometry offset along x.
    pub fn offset_x(self, offset_x: i64) -> (r: Self)
        ensures
            r == (Self { offset_x, ..self }),
    {
        Self { offset_x, ..self }
    }

    /// Set the geometry offset along y.
    pub fn offset_y(self, offset_y: i64) -> (r: Self)
        ensures
            r == (Self { offset_y, ..self }),
    {
        Self { offset_y, ..self }
    }

    /// Set the geometry offset along z.
    pub fn offset_z(self, offset_z: i64) -> (r: Self)
        ensures
            r == (Self { offset_z, ..self }),
    {
        Self { offset_z, ..self }
    }

    /// Set the texture scale along x.
    pub fn uv_scale_x(self, uv_scale_x: i64) -> (r: Self)
        ensures
            r == (Self { uv_scale_x, ..self }),
    {
        Self { uv_scale_x, ..self }
    }

    /// Set the texture scale along y.
    pub fn uv_scale_y(self, uv_scale_y: i64) -> (r: Self)
        ensures
            r == (Self { uv_scale_y, ..self }),
    {
        Self { uv_scale_y, ..self }
    }

    /// Set the texture scale along z.
    pub fn uv_scale_z(self, uv_scale_z: i64) -> (r: Self)
        ensures
            r == (Self { uv_scale_z, ..self }),
    {
        Self { uv_scale_z, ..self }
    }

    /// Set the texture offset along x.
    pub fn uv_offset_x(self, uv_offset_x: i64) -> (r: Self)
        ensures
            r == (Self { uv_offset_x, ..self }),
    {
        Self { uv_offset_x, ..self }
    }

    /// Set the texture offset along y.
    pub fn uv_offset_y(self, uv_offset_y: i64) -> (r: Self)
        ensures
            r == (Self { uv_offset_y, ..self }),
    {
        Self { uv_offset_y, ..self }
    }

    /// Set the texture offset along z.
    pub fn uv_offset_z(self, uv_offset_z: i64) -> (r: Self)
        ensures
            r == (Self { uv_offset_z, ..self }),
    {
        Self { uv_offset_z, ..self }
    }

    /// Set the prefix of every face name.
    pub fn prefix(self, prefix: &str) -> (r: Self)
        ensures
            six_same_shape(r, self),
            r.prefix@ == prefix@,
            r.suffix == self.suffix,
            r.concat == self.concat,
    {
        Self { prefix: prefix.to_owned(), ..self }
    }

    /// Set the suffix of every face name.
    pub fn suffix(self, suffix: &str) -> (r: Self)
        ensures
            six_same_shape(r, self),
            r.suffix@ == suffix@,
            r.prefix == self.prefix,
            r.concat == self.concat,
    {
        Self { suffix: suffix.to_owned(), ..self }
    }

    /// Set the token put between the name parts.
    pub fn concat(self, concat: &str) -> (r: Self)
        ensures
            six_same_shape(r, self),
            r.concat@ == concat@,
            r.prefix == self.prefix,
            r.suffix == self.suffix,
    {
        Self { concat: concat.to_owned(), ..self }
    }

    /// Tie the texture scale and offset to the geometry's.
    pub fn auto_uv_offset(self, auto_uv_offset: bool) -> (r: Self)
        ensures
            r == (Self { auto_uv_offset, ..self }),
    {
        Self { auto_uv_offset, ..self }
    }

    /// Pass every corner of every face through this rotation.
    pub fn with_rotation(self, rotation: &BlockRotation) -> (r: Self)
        ensures
            r == (Self { rotation: Some(*rotation), ..self }),
    {
        Self { rotation: Some(*rotation), ..self }
    }

    /// Mark the face at `index` of the `SIX_FACES` order independent;
    /// an index past the end changes nothing.
    pub fn independent_at(self, index: usize) -> (r: Self)
        ensures
            six_same_but_flags(r, self),
            r.isolation == self.isolation,
            index < 6 ==> r.independence@ == self.independence@.update(index as int, true),
            index >= 6 ==> r.independence == self.independence,
    {
        if index >= 6 {
            return self;
        }
        let old_ind = self.independence;
        let ind: [bool; 6] = [
            if index == 0 { true } else { old_ind[0] },
            if index == 1 { true } else { old_ind[1] },
            if index == 2 { true } else { old_ind[2] },
            if index == 3 { true } else { old_ind[3] },
            if index == 4 { true } else { old_ind[4] },
            if index == 5 { true } else { old_ind[5] },
        ];
        proof {
            assert(ind@ =~= self.independence@.update(index as int, true));
        }
        Self { independence: ind, ..self }
    }

    /// Mark the face at `index` of the `SIX_FACES` order isolated; an
    /// index past the end changes nothing.
    pub fn isolated_at(self, index: usize) -> (r: Self)
        ensures
            six_same_but_flags(r, self),
            r.independence == self.independence,
            index < 6 ==> r.isolation@ == self.isolation@.update(index as int, true),
            index >= 6 ==> r.isolation == self.isolation,
    {
        if index >= 6 {
            return self;
        }
        let old_iso = self.isolation;
        let iso: [bool; 6] = [
            if index == 0 { true } else { old_iso[0] },
            if index == 1 { true } else { old_iso[1] },
            if index == 2 { true } else { old_iso[2] },
            if index == 3 { true } else { old_iso[3] },
            if index == 4 { true } else { old_iso[4] },
            if index == 5 { true } else { old_iso[5] },
        ];
        proof {
            assert(iso@ =~= self.isolation@.update(index as int, true));
        }
        Self { isolation: iso, ..self }
    }

    /// Materialize the six faces of the block, in the px, py, pz, nx,
    /// ny, nz order, each corner passed through the configured rotation
    /// if one was given.
    #[verifier::rlimit(100)]
    pub fn build(self) -> (r: BlockFaces)
        requires
            six_in_range(self),
        ensures
            faces_view(r.faces@) == spec_six_faces(self),
    {
        let uox = if self.auto_uv_offset { self.offset_x } else { self.uv_offset_x };
        let uoy = if self.auto_uv_offset { self.offset_y } else { self.uv_offset_y };
        let uoz = if self.auto_uv_offset { self.offset_z } else { self.uv_offset_z };
        let usx = if self.auto_uv_offset { self.scale_x } else { self.uv_scale_x };
        let usy = if self.auto_uv_offset { self.scale_y } else { self.uv_scale_y };
        let usz = if self.auto_uv_offset { self.scale_z } else { self.uv_scale_z };

        let sox = self.scale_x + self.offset_x;
        let soy = self.scale_y + self.offset_y;
        let soz = self.scale_z + self.offset_z;
        let ox = self.offset_x;
        let oy = self.offset_y;
        let oz = self.offset_z;

        let i_px = self.independence[0];
        let i_py = self.independence[1];
        let i_pz = self.independence[2];
        let i_nx = self.independence[3];
        let i_ny = self.independence[4];
        let i_nz = self.independence[5];
        let q_px = self.isolation[0];
        let q_py = self.isolation[1];
        let q_pz = self.isolation[2];
        let q_nx = self.isolation[3];
        let q_ny = self.isolation[4];
        let q_nz = self.isolation[5];

        let face_px = BlockFace {
            name: make_name(&self.prefix, &self.concat, "px", &self.suffix),
            independent: i_px,
            isolated: q_px,
            dir: Vec3(1, 0, 0),
            range: UV::default(),
            corners: [
                CornerData {
                    pos: place(&self.rotation, sox, soy, soz),
                    uv: if i_px || q_px { Vec2(0, FIXED_ONE) } else { Vec2(uoz, usy + uoy) },
                },
                CornerData {
                    pos: place(&self.rotation, sox, oy, soz),
                    uv: if i_px || q_px { Vec2(0, 0) } else { Vec2(uoz, uoy) },
                },
                CornerData {
                    pos: place(&self.rotation, sox, soy, oz),
                    uv: if i_px || q_px { Vec2(FIXED_ONE, FIXED_ONE) } else {
                        Vec2(uoz + usz, uoy + usy)
                    },
                },
                CornerData {
                    pos: place(&self.rotation, sox, oy, oz),
                    uv: if i_px || q_px { Vec2(FIXED_ONE, 0) } else { Vec2(uoz + usz, uoy) },
                },
            ],
        };

        let face_py = BlockFace {
            name: make_name(&self.prefix, &self.concat, "py", &self.suffix),
            independent: i_py,
            isolated: q_py,
            dir: Vec3(0, 1, 0),
            range: UV::default(),
            corners: [
                CornerData {
                    pos: place(&self.rotation, ox, soy, soz),
                    uv: if i_py || q_py { Vec2(FIXED_ONE, FIXED_ONE) } else {
                        Vec2(uox + usx, uoz + usz)
                    },
                },
                CornerData {
                    pos: place(&self.rotation, sox, soy, soz),
                    uv: if i_py || q_py { Vec2(0, FIXED_ONE) } else { Vec2(uox, uoz + usz) },
                },
                CornerData {
                    pos: place(&self.rotation, ox, soy, oz),
                    uv: if i_py || q_py { Vec2(FIXED_ONE, 0) } else { Vec2(uox + usx, uoz) },
                },
                CornerData {
                    pos: place(&self.rotation, sox, soy, oz),
                    uv: if i_py || q_py { Vec2(0, 0) } else { Vec2(uox, uoz) },
                },
            ],
        };

        let face_pz = BlockFace {
            name: make_name(&self.prefix, &self.concat, "pz", &self.suffix),
            independent: i_pz,
            isolated: q_pz,
            dir: Vec3(0, 0, 1),
            range: UV::default(),
            corners: [
                CornerData {
                    pos: place(&self.rotation, ox, oy, soz),
                    uv: if i_pz || q_pz { Vec2(0, 0) } else { Vec2(uox, uoy) },
                },
                CornerData {
                    pos: place(&self.rotation, sox, oy, soz),
                    uv: if i_pz || q_pz { Vec2(FIXED_ONE, 0) } else { Vec2(uox + usx, uoy) },
                },
                CornerData {
                    pos: place(&self.rotation, ox, soy, soz),
                    uv: if i_pz || q_pz { Vec2(0, FIXED_ONE) } else { Vec2(uox, uoy + usy) },
                },
                CornerData {
                    pos: place(&self.rotation, sox, soy, soz),
                    uv: if i_pz || q_pz { Vec2(FIXED_ONE, FIXED_ONE) } else {
                        Vec2(uox + usx, uoy + usy)
                    },
                },
            ],
        };

        let face_nx = BlockFace {
            name: make_name(&self.prefix, &self.concat, "nx", &self.suffix),
            independent: i_nx,
            isolated: q_nx,
            dir: Vec3(-1, 0, 0),
            range: UV::default(),
            corners: [
                CornerData {
                    pos: place(&self.rotation, ox, soy, oz),
                    uv: if i_nx || q_nx { Vec2(0, FIXED_ONE) } else { Vec2(uoz, usy + uoy) },
                },
                CornerData {
                    pos: place(&self.rotation, ox, oy, oz),
                    uv: if i_nx || q_nx { Vec2(0, 0) } else { Vec2(uoz, uoy) },
                },
                CornerData {
                    pos: place(&self.rotation, ox, soy, soz),
                    uv: if i_nx || q_nx { Vec2(FIXED_ONE, FIXED_ONE) } else {
                        Vec2(uoz + usz, uoy + usy)
                    },
                },
                CornerData {
                    pos: place(&self.rotation, ox, oy, soz),
                    uv: if i_nx || q_nx { Vec2(FIXED_ONE, 0) } else { Vec2(uoz + usz, uoy) },
                },
            ],
        };

        let face_ny = BlockFace {
            name: make_name(&self.prefix, &self.concat, "ny", &self.suffix),
            independent: i_ny,
            isolated: q_ny,
            dir: Vec3(0, -1, 0),
            range: UV::default(),
            corners: [
                CornerData {
                    pos: place(&self.rotation, sox, oy, soz),
                    uv: if i_ny || q_ny { Vec2(FIXED_ONE, 0) } else { Vec2(uox + usx, uoz) },
                },
                CornerData {
                    pos: place(&self.rotation, ox, oy, soz),
                    uv: if i_ny || q_ny { Vec2(0, 0) } else { Vec2(uox, uoz) },
                },
                CornerData {
                    pos: place(&self.rotation, sox, oy, oz),
                    uv: if i_ny || q_ny { Vec2(FIXED_ONE, FIXED_ONE) } else {
                        Vec2(uox + usx, uoz + usz)
                    },
                },
                CornerData {
                    pos: place(&self.rotation, ox, oy, oz),
                    uv: if i_ny || q_ny { Vec2(0, FIXED_ONE) } else { Vec2(uox, uoz + usz) },
                },
            ],
        };

        let face_nz = BlockFace {
            name: make_name(&self.prefix, &self.concat, "nz", &self.suffix),
            independent: i_nz,
            isolated: q_nz,
            dir: Vec3(0, 0, -1),
            range: UV::default(),
            corners: [
                CornerData {
                    pos: place(&self.rotation, sox, oy, oz),
                    uv: if i_nz || q_nz { Vec2(0, 0) } else { Vec2(uox, uoy) },
                },
                CornerData {
                    pos: place(&self.rotation, ox, oy, oz),
                    uv: if i_nz || q_nz { Vec2(FIXED_ONE, 0) } else { Vec2(uox + usx, uoy) },
                },
                CornerData {
                    pos: place(&self.rotation, sox, soy, oz),
                    uv: if i_nz || q_nz { Vec2(0, FIXED_ONE) } else { Vec2(uox, uoy + usy) },
                },
                CornerData {
                    pos: place(&self.rotation, ox, soy, oz),
                    uv: if i_nz || q_nz { Vec2(FIXED_ONE, FIXED_ONE) } else {
                        Vec2(uox + usx, uoy + usy)
                    },
                },
            ],
        };

        let r = BlockFaces::from_faces(vec![face_px, face_py, face_pz, face_nx, face_ny, face_nz]);
        proof {
            assert(faces_view(r.faces@) =~~= spec_six_faces(self));
        }
        r
    }
}

/// A chainable configuration for the X-shaped cross faces of a block.
#[derive(Debug, Clone, PartialEq)]
pub struct DiagonalFacesBuilder {
    /// Scale of the cross in the horizontal plane.
    pub scale_horizontal: i64,
    /// Height of the cross.
    pub scale_vertical: i64,
    /// Offset along x.
    pub offset_x: i64,
    /// Offset along y.
    pub offset_y: i64,
    /// Offset along z.
    pub offset_z: i64,
    /// Prefix of every face name.
    pub prefix: String,
    /// Suffix of every face name.
    pub suffix: String,
    /// Token put between the name parts.
    pub concat: String,
    /// Whether to split each diagonal quad into two half-width quads.
    pub to_four: bool,
}

/// Every scale and offset of the builder is small enough for the sums.
pub open spec fn diagonal_in_range(b: DiagonalFacesBuilder) -> bool {
    &&& -MAX_FACE_COORD <= b.scale_horizontal <= MAX_FACE_COORD
    &&& -MAX_FACE_COORD <= b.scale_vertical <= MAX_FACE_COORD
    &&& -MAX_FACE_COORD <= b.offset_x <= MAX_FACE_COORD
    &&& -MAX_FACE_COORD <= b.offset_y <= MAX_FACE_COORD
    &&& -MAX_FACE_COORD <= b.offset_z <= MAX_FACE_COORD
}

/// Where the cross starts in the horizontal plane: the horizontal scale
/// is centred inside the cell.
pub open spec fn diag_h_min(b: DiagonalFacesBuilder) -> int {
    tdiv(65536 - b.scale_horizontal as int, 2)
}

/// Where the cross ends in the horizontal plane.
pub open spec fn diag_h_max(b: DiagonalFacesBuilder) -> int {
    65536 - diag_h_min(b)
}

/// The midpoint of the cross in the horizontal plane.
pub open spec fn diag_h_mid(b: DiagonalFacesBuilder) -> int {
    tdiv(diag_h_min(b) + diag_h_max(b), 2)
}

/// One quad of the diagonal model: a corner column at (x1, z1) with
/// texture column u1, and a corner column at (x2, z2) with texture
/// column u2, both running from the base to the top of the cross.
pub open spec fn spec_diag_face(
    b: DiagonalFacesBuilder,
    side: Seq<char>,
    x1: int,
    z1: int,
    u1: int,
    x2: int,
    z2: int,
    u2: int,
) -> FaceModel {
    let oy = b.offset_y as int;
    let top = oy + b.scale_vertical as int;
    FaceModel {
        name: spec_face_name(b.prefix@, b.concat@, side, b.suffix@),
        independent: false,
        isolated: false,
        dir: Vec3(0, 0, 0),
        corners: seq![
            (Vec3(b.offset_x as int + x1, top, b.offset_z as int + z1), Vec2(u1, 65536)),
            (Vec3(b.offset_x as int + x1, oy, b.offset_z as int + z1), Vec2(u1, 0)),
            (Vec3(b.offset_x as int + x2, top, b.offset_z as int + z2), Vec2(u2, 65536)),
            (Vec3(b.offset_x as int + x2, oy, b.offset_z as int + z2), Vec2(u2, 0)),
        ],
        range: (0, 0, 0, 0),
    }
}

/// The whole diagonal model: two full-width quads, or four half-width
/// quads when the builder splits them.
pub open spec fn spec_diagonal_faces(b: DiagonalFacesBuilder) -> Seq<FaceModel> {
    let lo = diag_h_min(b);
    let hi = diag_h_max(b);
    let mid = diag_h_mid(b);
    if b.to_four {
        seq![
            spec_diag_face(b, "one1"@, lo, lo, 0, mid, mid, 32768),
            spec_diag_face(b, "one2"@, mid, mid, 32768, hi, hi, 65536),
            spec_diag_face(b, "two1"@, hi, lo, 0, mid, mid, 32768),
            spec_diag_face(b, "two2"@, mid, mid, 32768, lo, hi, 65536),
        ]
    } else {
        seq![
            spec_diag_face(b, "one"@, lo, lo, 0, hi, hi, 65536),
            spec_diag_face(b, "two"@, hi, lo, 0, lo, hi, 65536),
        ]
    }
}

impl DiagonalFacesBuilder {
    /// The default configuration: a full-cell cross with empty name
    /// parts, as two quads.
    pub fn new() -> (r: Self)
        ensures
            r.scale_horizontal == FIXED_ONE,
            r.scale_vertical == FIXED_ONE,
            r.offset_x == 0i64,
            r.offset_y == 0i64,
            r.offset_z == 0i64,
            r.prefix@ == Seq::<char>::empty(),
            r.suffix@ == Seq::<char>::empty(),
            r.concat@ == Seq::<char>::empty(),
            r.to_four == false,
    {
        Self {
            scale_horizontal: FIXED_ONE,
            scale_vertical: FIXED_ONE,
            offset_x: 0,
            offset_y: 0,
            offset_z: 0,
            prefix: String::new(),
            suffix: String::new(),
            concat: String::new(),
            to_four: false,
        }
    }

    /// Set the horizontal scale of the cross.
    pub fn scale_horizontal(self, scale: i64) -> (r: Self)
        ensures
            r == (Self { scale_horizontal: scale, ..self }),
    {
        Self { scale_horizontal: scale, ..self }
    }

    /// Set the height of the cross.
    pub fn scale_vertical(self, scale: i64) -> (r: Self)
        ensures
            r == (Self { scale_vertical: scale, ..self }),
    {
        Self { scale_vertical: scale, ..self }
    }

    /// Set the offset along x.
    pub fn offset_x(self, offset: i64) -> (r: Self)
        ensures
            r == (Self { offset_x: offset, ..self }),
    {
        Self { offset_x: offset, ..self }
    }

    /// Set the offset along y.
    pub fn offset_y(self, offset: i64) -> (r: Self)
        ensures
            r == (Self { offset_y: offset, ..self }),
    {
        Self { offset_y: offset, ..self }
    }

    /// Set the offset along z.
    pub fn offset_z(self, offset: i64) -> (r: Self)
        ensures
            r == (Self { offset_z: offset, ..self }),
    {
        Self { offset_z: offset, ..self }
    }

    /// Set the prefix of every face name.
    pub fn prefix(self, prefix: &str) -> (r: Self)
        ensures
            r.prefix@ == prefix@,
            r.suffix == self.suffix,
            r.concat == self.concat,
            r.scale_horizontal == self.scale_horizontal,
            r.scale_vertical == self.scale_vertical,
            r.offset_x == self.offset_x,
            r.offset_y == self.offset_y,
            r.offset_z == self.offset_z,
            r.to_four == self.to_four,
    {
        Self { prefix: prefix.to_owned(), ..self }
    }

    /// Set the suffix of every face name.
    pub fn suffix(self, suffix: &str) -> (r: Self)
        ensures
            r.suffix@ == suffix@,
            r.prefix == self.prefix,
            r.concat == self.concat,
            r.scale_horizontal == self.scale_horizontal,
            r.scale_vertical == self.scale_vertical,
            r.offset_x == self.offset_x,
            r.offset_y == self.offset_y,
            r.offset_z == self.offset_z,
            r.to_four == self.to_four,
    {
        Self { suffix: suffix.to_owned(), ..self }
    }

    /// Set the token put between the name parts.
    pub fn concat(self, concat: &str) -> (r: Self)
        ensures
            r.concat@ == concat@,
            r.prefix == self.prefix,
            r.suffix == self.suffix,
            r.scale_horizontal == self.scale_horizontal,
            r.scale_vertical == self.scale_vertical,
            r.offset_x == self.offset_x,
            r.offset_y == self.offset_y,
            r.offset_z == self.offset_z,
            r.to_four == self.to_four,
    {
        Self { concat: concat.to_owned(), ..self }
    }

    /// Split each diagonal quad into two half-width quads.
    pub fn to_four(self) -> (r: Self)
        ensures
            r == (Self { to_four: true, ..self }),
    {
        Self { to_four: true, ..self }
    }

    /// Materialize the cross faces.
    #[verifier::rlimit(100)]
    pub fn build(self) -> (r: BlockFaces)
        requires
            diagonal_in_range(self),
        ensures
            faces_view(r.faces@) == spec_diagonal_faces(self),
    {
        let h_min = (FIXED_ONE - self.scale_horizontal) / 2;
        let h_max = FIXED_ONE - h_min;
        let ox = self.offset_x;
        let oy = self.offset_y;
        let oz = self.offset_z;
        let top = oy + self.scale_vertical;

        let r = if self.to_four {
            let mid = (h_min + h_max) / 2;
            BlockFaces::from_faces(vec![
                BlockFace {
                    name: make_name(&self.prefix, &self.concat, "one1", &self.suffix),
                    independent: false,
                    isolated: false,
                    dir: Vec3(0, 0, 0),
                    range: UV::default(),
                    corners: [
                        CornerData { pos: Vec3(ox + h_min, top, oz + h_min), uv: Vec2(0, FIXED_ONE) },
                        CornerData { pos: Vec3(ox + h_min, oy, oz + h_min), uv: Vec2(0, 0) },
                        CornerData {
                            pos: Vec3(ox + mid, top, oz + mid),
                            uv: Vec2(FIXED_HALF, FIXED_ONE),
                        },
                        CornerData { pos: Vec3(ox + mid, oy, oz + mid), uv: Vec2(FIXED_HALF, 0) },
                    ],
                },
                BlockFace {
                    name: make_name(&self.prefix, &self.concat, "one2", &self.suffix),
                    independent: false,
                    isolated: false,
                    dir: Vec3(0, 0, 0),
                    range: UV::default(),
                    corners: [
                        CornerData {
                            pos: Vec3(ox + mid, top, oz + mid),
                            uv: Vec2(FIXED_HALF, FIXED_ONE),
                        },
                        CornerData { pos: Vec3(ox + mid, oy, oz + mid), uv: Vec2(FIXED_HALF, 0) },
                        CornerData {
                            pos: Vec3(ox + h_max, top, oz + h_max),
                            uv: Vec2(FIXED_ONE, FIXED_ONE),
                        },
                        CornerData { pos: Vec3(ox + h_max, oy, oz + h_max), uv: Vec2(FIXED_ONE, 0) },
                    ],
                },
                BlockFace {
                    name: make_name(&self.prefix, &self.concat, "two1", &self.suffix),
                    independent: false,
                    isolated: false,
                    dir: Vec3(0, 0, 0),
                    range: UV::default(),
                    corners: [
                        CornerData { pos: Vec3(ox + h_max, top, oz + h_min), uv: Vec2(0, FIXED_ONE) },
                        CornerData { pos: Vec3(ox + h_max, oy, oz + h_min), uv: Vec2(0, 0) },
                        CornerData {
                            pos: Vec3(ox + mid, top, oz + mid),
                            uv: Vec2(FIXED_HALF, FIXED_ONE),
                        },
                        CornerData { pos: Vec3(ox + mid, oy, oz + mid), uv: Vec2(FIXED_HALF, 0) },
                    ],
                },
                BlockFace {
                    name: make_name(&self.prefix, &self.concat, "two2", &self.suffix),
                    independent: false,
                    isolated: false,
                    dir: Vec3(0, 0, 0),
                    range: UV::default(),
                    corners: [
                        CornerData {
                            pos: Vec3(ox + mid, top, oz + mid),
                            uv: Vec2(FIXED_HALF, FIXED_ONE),
                        },
                        CornerData { pos: Vec3(ox + mid, oy, oz + mid), uv: Vec2(FIXED_HALF, 0) },
                        CornerData {
                            pos: Vec3(ox + h_min, top, oz + h_max),
                            uv: Vec2(FIXED_ONE, FIXED_ONE),
                        },
                        CornerData { pos: Vec3(ox + h_min, oy, oz + h_max), uv: Vec2(FIXED_ONE, 0) },
                    ],
                },
            ])
        } else {
            BlockFaces::from_faces(vec![
                BlockFace {
                    name: make_name(&self.prefix, &self.concat, "one", &self.suffix),
                    independent: false,
                    isolated: false,
                    dir: Vec3(0, 0, 0),
                    range: UV::default(),
                    corners: [
                        CornerData { pos: Vec3(ox + h_min, top, oz + h_min), uv: Vec2(0, FIXED_ONE) },
                        CornerData { pos: Vec3(ox + h_min, oy, oz + h_min), uv: Vec2(0, 0) },
                        CornerData {
                            pos: Vec3(ox + h_max, top, oz + h_max),
                            uv: Vec2(FIXED_ONE, FIXED_ONE),
                        },
                        CornerData { pos: Vec3(ox + h_max, oy, oz + h_max), uv: Vec2(FIXED_ONE, 0) },
                    ],
                },
                BlockFace {
                    name: make_name(&self.prefix, &self.concat, "two", &self.suffix),
                    independent: false,
                    isolated: false,
                    dir: Vec3(0, 0, 0),
                    range: UV::default(),
                    corners: [
                        CornerData { pos: Vec3(ox + h_max, top, oz + h_min), uv: Vec2(0, FIXED_ONE) },
                        CornerData { pos: Vec3(ox + h_max, oy, oz + h_min), uv: Vec2(0, 0) },
                        CornerData {
                            pos: Vec3(ox + h_min, top, oz + h_max),
                            uv: Vec2(FIXED_ONE, FIXED_ONE),
                        },
                        CornerData { pos: Vec3(ox + h_min, oy, oz + h_max), uv: Vec2(FIXED_ONE, 0) },
                    ],
                },
            ])
        };
        proof {
            assert(faces_view(r.faces@) =~~= spec_diagonal_faces(self));
        }
        r
    }
}

impl BlockFaces {
    /// Start building the six cube faces of a block.
    pub fn six_faces() -> (r: SixFacesBuilder)
        ensures
            six_same_shape(
                r,
                (SixFacesBuilder {
                    scale_x: FIXED_ONE as i64,
                    scale_y: FIXED_ONE as i64,
                    scale_z: FIXED_ONE as i64,
                    offset_x: 0i64,
                    offset_y: 0i64,
                    offset_z: 0i64,
                    uv_scale_x: FIXED_ONE as i64,
                    uv_scale_y: FIXED_ONE as i64,
                    uv_scale_z: FIXED_ONE as i64,
                    uv_offset_x: 0i64,
                    uv_offset_y: 0i64,
                    uv_offset_z: 0i64,
                    prefix: r.prefix,
                    suffix: r.suffix,
                    concat: r.concat,
                    independence: [false, false, false, false, false, false],
                    isolation: [false, false, false, false, false, false],
                    auto_uv_offset: false,
                    rotation: None,
                }),
            ),
            r.prefix@ == Seq::<char>::empty(),
            r.suffix@ == Seq::<char>::empty(),
            r.concat@ == Seq::<char>::empty(),
    {
        SixFacesBuilder::new()
    }

    /// Start building the X-shaped cross faces of a block.
    pub fn diagonal_faces() -> (r: DiagonalFacesBuilder)
        ensures
            r.scale_horizontal == FIXED_ONE,
            r.scale_vertical == FIXED_ONE,
            r.offset_x == 0i64,
            r.offset_y == 0i64,
            r.offset_z == 0i64,
            r.prefix@ == Seq::<char>::empty(),
            r.suffix@ == Seq::<char>::empty(),
            r.concat@ == Seq::<char>::empty(),
            r.to_four == false,
    {
        DiagonalFacesBuilder::new()
    }
}

/// Law: whatever the configuration, the six-face builder produces
/// exactly six faces, named px, py, pz, nx, ny and nz in that order
/// under the configured prefix, token and suffix, each with four
/// corners.
pub proof fn lemma_six_faces_shape(b: SixFacesBuilder)
    ensures
        spec_six_faces(b).len() == 6,
        spec_six_faces(b)[0].name == spec_face_name(b.prefix@, b.concat@, "px"@, b.suffix@),
        spec_six_faces(b)[1].name == spec_face_name(b.prefix@, b.concat@, "py"@, b.suffix@),
        spec_six_faces(b)[2].name == spec_face_name(b.prefix@, b.concat@, "pz"@, b.suffix@),
        spec_six_faces(b)[3].name == spec_face_name(b.prefix@, b.concat@, "nx"@, b.suffix@),
        spec_six_faces(b)[4].name == spec_face_name(b.prefix@, b.concat@, "ny"@, b.suffix@),
        spec_six_faces(b)[5].name == spec_face_name(b.prefix@, b.concat@, "nz"@, b.suffix@),
        forall|i: int| 0 <= i < 6 ==> #[trigger] spec_six_faces(b)[i].corners.len() == 4,
{
}

/// Law: the texture coordinates of the py and the ny face come from
/// the x and z texture scales and offsets alone, never from the y ones.
pub proof fn lemma_six_faces_y_uv_from_xz(b: SixFacesBuilder)
    requires
        !b.independence[1],
        !b.isolation[1],
        !b.independence[4],
        !b.isolation[4],
    ensures
        ({
            let px = eff_uv_offset_x(b);
            let pz = eff_uv_offset_z(b);
            let sx = eff_uv_scale_x(b);
            let sz = eff_uv_scale_z(b);
            let py_face = spec_six_faces(b)[1];
            let ny_face = spec_six_faces(b)[4];
            &&& py_face.corners[0].1 == Vec2(px + sx, pz + sz)
            &&& py_face.corners[1].1 == Vec2(px, pz + sz)
            &&& py_face.corners[2].1 == Vec2(px + sx, pz)
            &&& py_face.corners[3].1 == Vec2(px, pz)
            &&& ny_face.corners[0].1 == Vec2(px + sx, pz)
            &&& ny_face.corners[1].1 == Vec2(px, pz)
            &&& ny_face.corners[2].1 == Vec2(px + sx, pz + sz)
            &&& ny_face.corners[3].1 == Vec2(px, pz + sz)
        }),
{
}

} // verus!
