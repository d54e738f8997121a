//! The model definition (`.mdl`) reader: the primary header and every
//! table it names — bones, textures, skin families, body parts with their
//! models and meshes, animations, attachments and hitboxes.

pub mod animation;
pub mod bones;
pub mod header;

pub use animation::{
    AnimValue, Animation, AnimationBlock, AnimationDescription, AnimationFlags, AnimationHeader,
    AnimationValuePointer, FrameValues, PoseParameterDescription, PositionData, RotationData,
    ValueHeader,
};
pub use bones::{
    AiMatBone, AxisInterpBone, Bone, BoneFlags, ContentFlags, JiggleBone, JiggleBoneFlags,
    ProceduralBone, ProceduralBoneType, QuaternionInterpBone,
};
pub use header::{ModelFlags, StudioHeader, StudioHeader2, FILETYPE_ID, MDL_VERSION};

use vstd::prelude::*;

use crate::error::ModelError;
use crate::math::{get_transform, get_vector, spec_vector, transform_matches, Transform3x4, Vector};
use crate::mdl::animation::{
    animation_description_fault, animation_description_matches, pose_parameter_fault,
    pose_parameter_matches, read_animation_description, read_pose_parameter, spec_animation_block,
};
use crate::mdl::bones::{bone_fault, bone_matches, read_bone};
use crate::mdl::header::{
    clamp_count, skin_table_len, studio_header2_fault, studio_header2_matches,
    studio_header_matches, ANIMATION_BLOCK_SIZE, ANIMATION_DESCRIPTION_SIZE, ATTACHMENT_SIZE,
    BODY_PART_SIZE, BONE_SIZE, BOUNDING_BOX_SIZE, HITBOX_SET_SIZE, MESH_SIZE, MODEL_SIZE,
    POSE_PARAMETER_SIZE, STUDIO_HEADER_SIZE, TEXTURE_SIZE,
};
use crate::reader::{
    extend_signed, extend_to_usize, fixed_string, fixed_string_fault, fixed_string_value, get_i32,
    get_u16, get_u32, index_range, le16, le32, le_i32, lenient_name_fault, lenient_name_value,
    read_bytes, read_string_lenient, read_string_rel, sat_off, string_rel_fault, string_rel_value,
    table_fault, IndexRange,
};

verus! {

// ------------------------------------------------------------------
// Record types.
// ------------------------------------------------------------------

/// One texture reference: its name (slashes normalized) and the search
/// directories shared by all textures of the model.
#[derive(Debug, Clone, PartialEq, Eq)]
pub struct TextureInfo {
    pub name: String,
    pub name_index: i32,
    pub search_paths: Vec<String>,
}

/// The fixed texture record; `name_index` is relative to the record.
#[derive(Debug, Clone, Copy, PartialEq, Eq, Structural)]
pub struct MeshTexture {
    pub name_index: i32,
    pub flags: i32,
    pub used: i32,
    pub material_ptr: i32,
    pub client_material_ptr: i32,
}

/// Per-attachment flags (bit field).
#[derive(Debug, Clone, Copy, PartialEq, Eq, Structural)]
pub struct AttachmentFlags(pub i32);

/// One attachment point: a named transform local to a bone.
#[derive(Debug, Clone, PartialEq, Eq)]
pub struct StudioAttachment {
    pub name: String,
    pub flags: AttachmentFlags,
    pub local_bone: i32,
    pub local: Transform3x4,
}

/// One hitbox: a named axis-aligned box on a bone.
#[derive(Debug, Clone, PartialEq, Eq)]
pub struct BoundingBox {
    pub name: String,
    pub bone: i32,
    pub group: i32,
    pub min: Vector,
    pub max: Vector,
}

/// The fixed hitbox-set record: where its hitbox table lies.
#[derive(Debug, Clone, Copy, PartialEq, Eq, Structural)]
pub struct HitBoxSetHeader {
    pub name_index: i32,
    pub hitbox_count: i32,
    pub hitbox_offset: i32,
}

impl HitBoxSetHeader {
    /// The offsets of the hitbox records, relative to this record.
    pub fn hitbox_indexes(&self) -> (r: IndexRange)
        ensures
            r.base as int == extend_signed(self.hitbox_offset),
            r.count == clamp_count(self.hitbox_count),
            r.stride == BOUNDING_BOX_SIZE,
    {
        index_range(self.hitbox_offset, self.hitbox_count, BOUNDING_BOX_SIZE)
    }
}

/// One named set of hitboxes.
#[derive(Debug, Clone, PartialEq, Eq)]
pub struct HitBoxSet {
    pub name: String,
    pub boxes: Vec<BoundingBox>,
}

/// The fixed body-part record: where its model table lies.
#[derive(Debug, Clone, Copy, PartialEq, Eq, Structural)]
pub struct BodyPartHeader {
    pub name_index: i32,
    pub model_count: i32,
    pub base: i32,
    pub model_index: i32,
}

impl BodyPartHeader {
    /// The offsets of the model records, relative to this record.
    pub fn model_indexes(&self) -> (r: IndexRange)
        ensures
            r.base as int == extend_signed(self.model_index),
            r.count == clamp_count(self.model_count),
            r.stride == MODEL_SIZE,
    {
        index_range(self.model_index, self.model_count, MODEL_SIZE)
    }
}

/// One mesh of a model: its material and its vertex base, relative to the
/// model's.
#[derive(Debug, Clone, Copy, PartialEq, Eq, Structural)]
pub struct Mesh {
    pub material: i32,
    pub vertex_offset: i32,
}

/// One model (visual variant) of a body part.
#[derive(Debug, Clone, PartialEq, Eq)]
pub struct Model {
    pub name: String,
    pub ty: i32,
    /// An IEEE-754 single-precision bit pattern.
    pub bounding_radius: u32,
    pub meshes: Vec<Mesh>,
    /// Base index of the model's vertices in the canonical vertex array;
    /// the wire stores a byte offset, divided by the 48-byte vertex size
    /// during parse.
    pub vertex_offset: i32,
}

/// One body part: a named group of alternative models.
#[derive(Debug, Clone, PartialEq, Eq)]
pub struct BodyPart {
    pub name_index: i32,
    pub models: Vec<Model>,
}

/// A parsed model definition file.
#[derive(Debug, Clone, PartialEq, Eq)]
pub struct Mdl {
    pub name: String,
    pub header: StudioHeader,
    pub header2: Option<StudioHeader2>,
    pub bones: Vec<Bone>,
    pub body_parts: Vec<BodyPart>,
    pub textures: Vec<TextureInfo>,
    pub texture_paths: Vec<String>,
    pub skin_table: Vec<u16>,
    pub surface_prop: String,
    pub key_values: Option<String>,
    pub local_animations: Vec<AnimationDescription>,
    pub animation_block_source: String,
    pub animation_blocks: Vec<AnimationBlock>,
    pub pose_parameters: Vec<PoseParameterDescription>,
    pub attachments: Vec<StudioAttachment>,
    pub hit_boxes: Vec<HitBoxSet>,
}

// ------------------------------------------------------------------
// Record-level wire layout.
// ------------------------------------------------------------------

/// The fault of reading the texture record at `off`, if any.
pub open spec fn texture_fault(s: Seq<u8>, off: int) -> Option<ModelError> {
    if s.len() - off < TEXTURE_SIZE {
        Some(ModelError::Eof(TEXTURE_SIZE))
    } else {
        lenient_name_fault(s, off, le_i32(s, off), true)
    }
}

/// Whether `t` is the texture record stored at `off` (its search paths
/// are filled in afterwards and stated at the file level).
pub open spec fn texture_matches(t: TextureInfo, s: Seq<u8>, off: int) -> bool {
    &&& t.name@ == lenient_name_value(s, off, le_i32(s, off), true)
    &&& t.name_index == le_i32(s, off)
}

/// Read the texture record at `off` (with empty search paths).
fn read_texture(data: &[u8], off: usize) -> (r: Result<TextureInfo, ModelError>)
    requires
        off <= data@.len(),
    ensures
        match r {
            Ok(t) => texture_fault(data@, off as int) is None && texture_matches(
                t,
                data@,
                off as int,
            ) && t.search_paths@.len() == 0,
            Err(e) => texture_fault(data@, off as int) == Some(e),
        },
{
    let len = data.len();
    if len - off < TEXTURE_SIZE {
        return Err(ModelError::Eof(TEXTURE_SIZE));
    }
    let tex = MeshTexture {
        name_index: get_i32(data, off),
        flags: get_i32(data, off + 4),
        used: get_i32(data, off + 8),
        material_ptr: get_i32(data, off + 16),
        client_material_ptr: get_i32(data, off + 20),
    };
    let name = match read_string_lenient(data, off, tex.name_index, true) {
        Ok(v) => v,
        Err(e) => {
            return Err(e);
        },
    };
    Ok(TextureInfo { name, name_index: tex.name_index, search_paths: Vec::new() })
}

/// The fault of reading the attachment record at `off`, if any.
pub open spec fn attachment_fault(s: Seq<u8>, off: int) -> Option<ModelError> {
    if s.len() - off < ATTACHMENT_SIZE {
        Some(ModelError::Eof(ATTACHMENT_SIZE))
    } else {
        lenient_name_fault(s, off, le_i32(s, off), true)
    }
}

/// Whether `a` is the attachment record stored at `off`.
pub open spec fn attachment_matches(a: StudioAttachment, s: Seq<u8>, off: int) -> bool {
    &&& a.name@ == lenient_name_value(s, off, le_i32(s, off), true)
    &&& a.flags == AttachmentFlags(le_i32(s, off + 4))
    &&& a.local_bone == le_i32(s, off + 8)
    &&& transform_matches(a.local, s, off + 12)
}

/// Read the attachment record at `off`.
fn read_attachment(data: &[u8], off: usize) -> (r: Result<StudioAttachment, ModelError>)
    requires
        off <= data@.len(),
    ensures
        match r {
            Ok(a) => attachment_fault(data@, off as int) is None && attachment_matches(
                a,
                data@,
                off as int,
            ),
            Err(e) => attachment_fault(data@, off as int) == Some(e),
        },
{
    let len = data.len();
    if len - off < ATTACHMENT_SIZE {
        return Err(ModelError::Eof(ATTACHMENT_SIZE));
    }
    let name = match read_string_lenient(data, off, get_i32(data, off), true) {
        Ok(v) => v,
        Err(e) => {
            return Err(e);
        },
    };
    Ok(
        StudioAttachment {
            name,
            flags: AttachmentFlags(get_i32(data, off + 4)),
            local_bone: get_i32(data, off + 8),
            local: get_transform(data, off + 12),
        },
    )
}

/// The fault of reading the hitbox record at `off`, if any.
pub open spec fn bounding_box_fault(s: Seq<u8>, off: int) -> Option<ModelError> {
    if s.len() - off < BOUNDING_BOX_SIZE {
        Some(ModelError::Eof(BOUNDING_BOX_SIZE))
    } else {
        lenient_name_fault(s, off, le_i32(s, off + 32), true)
    }
}

/// Whether `b` is the hitbox record stored at `off`.
pub open spec fn bounding_box_matches(b: BoundingBox, s: Seq<u8>, off: int) -> bool {
    &&& b.name@ == lenient_name_value(s, off, le_i32(s, off + 32), true)
    &&& b.bone == le_i32(s, off)
    &&& b.group == le_i32(s, off + 4)
    &&& b.min == spec_vector(s, off + 8)
    &&& b.max == spec_vector(s, off + 20)
}

/// Read the hitbox record at `off`.
fn read_bounding_box(data: &[u8], off: usize) -> (r: Result<BoundingBox, ModelError>)
    requires
        off <= data@.len(),
    ensures
        match r {
            Ok(b) => bounding_box_fault(data@, off as int) is None && bounding_box_matches(
                b,
                data@,
                off as int,
            ),
            Err(e) => bounding_box_fault(data@, off as int) == Some(e),
        },
{
    let len = data.len();
    if len - off < BOUNDING_BOX_SIZE {
        return Err(ModelError::Eof(BOUNDING_BOX_SIZE));
    }
    let name = match read_string_lenient(data, off, get_i32(data, off + 32), true) {
        Ok(v) => v,
        Err(e) => {
            return Err(e);
        },
    };
    Ok(
        BoundingBox {
            name,
            bone: get_i32(data, off),
            group: get_i32(data, off + 4),
            min: get_vector(data, off + 8),
            max: get_vector(data, off + 20),
        },
    )
}

/// The fault of reading the hitbox set at `off` and its hitboxes, if any.
pub open spec fn hitbox_set_fault(s: Seq<u8>, off: int) -> Option<ModelError> {
    if s.len() - off < HITBOX_SET_SIZE {
        Some(ModelError::Eof(HITBOX_SET_SIZE))
    } else if lenient_name_fault(s, off, le_i32(s, off), true) is Some {
        lenient_name_fault(s, off, le_i32(s, off), true)
    } else {
        table_fault(
            s,
            off,
            extend_signed(le_i32(s, off + 8)),
            BOUNDING_BOX_SIZE as int,
            clamp_count(le_i32(s, off + 4)),
            0,
            "bounding_box",
            |s2: Seq<u8>, o: int| bounding_box_fault(s2, o),
        )
    }
}

/// Whether `h` is the hitbox set stored at `off`.
pub open spec fn hitbox_set_matches(h: HitBoxSet, s: Seq<u8>, off: int) -> bool {
    &&& h.name@ == lenient_name_value(s, off, le_i32(s, off), true)
    &&& h.boxes@.len() == clamp_count(le_i32(s, off + 4))
    &&& forall|i: int|
        0 <= i < h.boxes@.len() ==> #[trigger] bounding_box_matches(
            h.boxes@[i],
            s,
            off + sat_off(extend_signed(le_i32(s, off + 8)), i, BOUNDING_BOX_SIZE as int),
        )
}

/// Read the hitbox set at `off`: its name and its hitbox table.
#[verifier::loop_isolation(false)]
fn read_hitbox_set(data: &[u8], off: usize) -> (r: Result<HitBoxSet, ModelError>)
    requires
        off <= data@.len(),
    ensures
        match r {
            Ok(h) => hitbox_set_fault(data@, off as int) is None && hitbox_set_matches(
                h,
                data@,
                off as int,
            ),
            Err(e) => hitbox_set_fault(data@, off as int) == Some(e),
        },
{
    let len = data.len();
    if len - off < HITBOX_SET_SIZE {
        return Err(ModelError::Eof(HITBOX_SET_SIZE));
    }
    let slice_len = len - off;
    let h = HitBoxSetHeader {
        name_index: get_i32(data, off),
        hitbox_count: get_i32(data, off + 4),
        hitbox_offset: get_i32(data, off + 8),
    };
    let name = match read_string_lenient(data, off, h.name_index, true) {
        Ok(v) => v,
        Err(e) => {
            return Err(e);
        },
    };
    let hr = h.hitbox_indexes();
    let mut boxes: Vec<BoundingBox> = Vec::new();
    let ghost child = |s2: Seq<u8>, o: int| bounding_box_fault(s2, o);
    for i in 0..hr.len()
        invariant
            boxes@.len() == i,
            forall|j: int|
                0 <= j < i ==> #[trigger] bounding_box_matches(
                    boxes@[j],
                    data@,
                    off + sat_off(hr.base as int, j, BOUNDING_BOX_SIZE as int),
                ),
            table_fault(
                data@,
                off as int,
                hr.base as int,
                BOUNDING_BOX_SIZE as int,
                hr.count as int,
                i as int,
                "bounding_box",
                child,
            ) == table_fault(
                data@,
                off as int,
                hr.base as int,
                BOUNDING_BOX_SIZE as int,
                hr.count as int,
                0,
                "bounding_box",
                child,
            ),
    {
        let rel = hr.nth(i);
        if rel > slice_len {
            return Err(ModelError::OutOfBounds { data: "bounding_box", offset: rel });
        }
        match read_bounding_box(data, off + rel) {
            Ok(v) => boxes.push(v),
            Err(e) => {
                return Err(e);
            },
        }
    }
    Ok(HitBoxSet { name, boxes })
}

/// The mesh record stored at `off`.
pub open spec fn spec_mdl_mesh(s: Seq<u8>, off: int) -> Mesh {
    Mesh { material: le_i32(s, off), vertex_offset: le_i32(s, off + 12) }
}

/// The fault of reading the mesh record at `off`, if any.
pub open spec fn mdl_mesh_fault(s: Seq<u8>, off: int) -> Option<ModelError> {
    if s.len() - off < MESH_SIZE {
        Some(ModelError::Eof(MESH_SIZE))
    } else {
        None
    }
}

/// Read the mesh record at `off`.
fn read_mdl_mesh(data: &[u8], off: usize) -> (r: Result<Mesh, ModelError>)
    requires
        off <= data@.len(),
    ensures
        match r {
            Ok(m) => mdl_mesh_fault(data@, off as int) is None && m == spec_mdl_mesh(
                data@,
                off as int,
            ),
            Err(e) => mdl_mesh_fault(data@, off as int) == Some(e),
        },
{
    let len = data.len();
    if len - off < MESH_SIZE {
        return Err(ModelError::Eof(MESH_SIZE));
    }
    Ok(Mesh { material: get_i32(data, off), vertex_offset: get_i32(data, off + 12) })
}

/// A wire byte offset into the vertex file, turned into a vertex index:
/// division by the 48-byte vertex size, truncating toward zero.
pub open spec fn spec_vertex_offset(v: i32) -> int {
    if v >= 0 {
        v as int / 48
    } else {
        -((-(v as int)) / 48)
    }
}

/// The fault of reading the model record at `off` with its meshes and
/// name, if any.
pub open spec fn model_fault(s: Seq<u8>, off: int) -> Option<ModelError> {
    if s.len() - off < MODEL_SIZE {
        Some(ModelError::Eof(MODEL_SIZE))
    } else if table_fault(
        s,
        off,
        extend_signed(le_i32(s, off + 76)),
        MESH_SIZE as int,
        clamp_count(le_i32(s, off + 72)),
        0,
        "mesh",
        |s2: Seq<u8>, o: int| mdl_mesh_fault(s2, o),
    ) is Some {
        table_fault(
            s,
            off,
            extend_signed(le_i32(s, off + 76)),
            MESH_SIZE as int,
            clamp_count(le_i32(s, off + 72)),
            0,
            "mesh",
            |s2: Seq<u8>, o: int| mdl_mesh_fault(s2, o),
        )
    } else {
        fixed_string_fault(s.subrange(off, off + 64))
    }
}

/// Whether `m` is the model record stored at `off`.
pub open spec fn model_matches(m: Model, s: Seq<u8>, off: int) -> bool {
    &&& m.name@ == fixed_string_value(s.subrange(off, off + 64))
    &&& m.ty == le_i32(s, off + 64)
    &&& m.bounding_radius == le32(s, off + 68)
    &&& m.meshes@.len() == clamp_count(le_i32(s, off + 72))
    &&& forall|i: int|
        0 <= i < m.meshes@.len() ==> m.meshes@[i] == spec_mdl_mesh(
            s,
            off + sat_off(extend_signed(le_i32(s, off + 76)), i, MESH_SIZE as int),
        )
    &&& m.vertex_offset as int == spec_vertex_offset(le_i32(s, off + 84))
}

/// Read the model record at `off`: its meshes, then its fixed name field.
#[verifier::loop_isolation(false)]
fn read_model(data: &[u8], off: usize) -> (r: Result<Model, ModelError>)
    requires
        off <= data@.len(),
    ensures
        match r {
            Ok(m) => model_fault(data@, off as int) is None && model_matches(m, data@, off as int),
            Err(e) => model_fault(data@, off as int) == Some(e),
        },
{
    let len = data.len();
    if len - off < MODEL_SIZE {
        return Err(ModelError::Eof(MODEL_SIZE));
    }
    let slice_len = len - off;
    let mesh_count = get_i32(data, off + 72);
    let mesh_index = get_i32(data, off + 76);
    let mr = index_range(mesh_index, mesh_count, MESH_SIZE);
    let mut meshes: Vec<Mesh> = Vec::new();
    let ghost child = |s2: Seq<u8>, o: int| mdl_mesh_fault(s2, o);
    for i in 0..mr.len()
        invariant
            meshes@.len() == i,
            forall|j: int|
                0 <= j < i ==> meshes@[j] == spec_mdl_mesh(
                    data@,
                    off + sat_off(mr.base as int, j, MESH_SIZE as int),
                ),
            table_fault(
                data@,
                off as int,
                mr.base as int,
                MESH_SIZE as int,
                mr.count as int,
                i as int,
                "mesh",
                child,
            ) == table_fault(
                data@,
                off as int,
                mr.base as int,
                MESH_SIZE as int,
                mr.count as int,
                0,
                "mesh",
                child,
            ),
    {
        let rel = mr.nth(i);
        if rel > slice_len {
            return Err(ModelError::OutOfBounds { data: "mesh", offset: rel });
        }
        match read_mdl_mesh(data, off + rel) {
            Ok(v) => meshes.push(v),
            Err(e) => {
                return Err(e);
            },
        }
    }
    let name_buf = read_bytes(data, off, 64);
    let name = match fixed_string(&name_buf) {
        Ok(v) => v,
        Err(e) => {
            return Err(e);
        },
    };
    let vertex_index = get_i32(data, off + 84);
    let vertex_offset: i32 = if vertex_index >= 0 {
        ((vertex_index as u32) / 48) as i32
    } else {
        let m = ((-(vertex_index as i64)) as u64) / 48;
        -(m as i32)
    };
    Ok(
        Model {
            name,
            ty: get_i32(data, off + 64),
            bounding_radius: get_u32(data, off + 68),
            meshes,
            vertex_offset,
        },
    )
}

/// The fault of reading the body part at `off` and its models, if any.
pub open spec fn body_part_fault(s: Seq<u8>, off: int) -> Option<ModelError> {
    if s.len() - off < BODY_PART_SIZE {
        Some(ModelError::Eof(BODY_PART_SIZE))
    } else {
        table_fault(
            s,
            off,
            extend_signed(le_i32(s, off + 12)),
            MODEL_SIZE as int,
            clamp_count(le_i32(s, off + 4)),
            0,
            "model",
            |s2: Seq<u8>, o: int| model_fault(s2, o),
        )
    }
}

/// Whether `b` is the body part stored at `off`.
pub open spec fn body_part_matches(b: BodyPart, s: Seq<u8>, off: int) -> bool {
    &&& b.name_index == le_i32(s, off)
    &&& b.models@.len() == clamp_count(le_i32(s, off + 4))
    &&& forall|i: int|
        0 <= i < b.models@.len() ==> #[trigger] model_matches(
            b.models@[i],
            s,
            off + sat_off(extend_signed(le_i32(s, off + 12)), i, MODEL_SIZE as int),
        )
}

/// Read the body part at `off` and its models.
#[verifier::loop_isolation(false)]
fn read_body_part(data: &[u8], off: usize) -> (r: Result<BodyPart, ModelError>)
    requires
        off <= data@.len(),
    ensures
        match r {
            Ok(b) => body_part_fault(data@, off as int) is None && body_part_matches(
                b,
                data@,
                off as int,
            ),
            Err(e) => body_part_fault(data@, off as int) == Some(e),
        },
{
    let len = data.len();
    if len - off < BODY_PART_SIZE {
        return Err(ModelError::Eof(BODY_PART_SIZE));
    }
    let slice_len = len - off;
    let h = BodyPartHeader {
        name_index: get_i32(data, off),
        model_count: get_i32(data, off + 4),
        base: get_i32(data, off + 8),
        model_index: get_i32(data, off + 12),
    };
    let mr = h.model_indexes();
    let mut models: Vec<Model> = Vec::new();
    let ghost child = |s2: Seq<u8>, o: int| model_fault(s2, o);
    for i in 0..mr.len()
        invariant
            models@.len() == i,
            forall|j: int|
                0 <= j < i ==> #[trigger] model_matches(
                    models@[j],
                    data@,
                    off + sat_off(mr.base as int, j, MODEL_SIZE as int),
                ),
            table_fault(
                data@,
                off as int,
                mr.base as int,
                MODEL_SIZE as int,
                mr.count as int,
                i as int,
                "model",
                child,
            ) == table_fault(
                data@,
                off as int,
                mr.base as int,
                MODEL_SIZE as int,
                mr.count as int,
                0,
                "model",
                child,
            ),
    {
        let rel = mr.nth(i);
        if rel > slice_len {
            return Err(ModelError::OutOfBounds { data: "model", offset: rel });
        }
        match read_model(data, off + rel) {
            Ok(v) => models.push(v),
            Err(e) => {
                return Err(e);
            },
        }
    }
    Ok(BodyPart { name_index: h.name_index, models })
}

// ------------------------------------------------------------------
// File-level tables.
// ------------------------------------------------------------------

/// Whether two string sequences hold the same characters, element for
/// element.
pub open spec fn same_strings(a: Seq<String>, b: Seq<String>) -> bool {
    &&& a.len() == b.len()
    &&& forall|j: int| 0 <= j < a.len() ==> a[j]@ == b[j]@
}

/// Clone a list of strings.
fn clone_strings(v: &Vec<String>) -> (r: Vec<String>)
    ensures
        same_strings(r@, v@),
{
    let mut out: Vec<String> = Vec::new();
    for i in 0..v.len()
        invariant
            out@.len() == i,
            forall|j: int| 0 <= j < i ==> out@[j]@ == v@[j]@,
    {
        out.push(v[i].clone());
    }
    out
}

/// The fault of reading the texture table, if any.
pub open spec fn textures_fault(s: Seq<u8>) -> Option<ModelError> {
    table_fault(
        s,
        0,
        extend_signed(le_i32(s, 208)),
        TEXTURE_SIZE as int,
        clamp_count(le_i32(s, 204)),
        0,
        "texture",
        |s2: Seq<u8>, o: int| texture_fault(s2, o),
    )
}

/// The fault of reading the texture-directory offset table, if any.
pub open spec fn texture_dirs_fault(s: Seq<u8>) -> Option<ModelError> {
    table_fault(
        s,
        0,
        extend_signed(le_i32(s, 216)),
        4,
        clamp_count(le_i32(s, 212)),
        0,
        "u32",
        |s2: Seq<u8>, o: int| if s2.len() - o < 4 {
            Some(ModelError::Eof(4))
        } else {
            Option::<ModelError>::None
        },
    )
}

/// How many texture search directories the header names.
pub open spec fn texture_dir_count(s: Seq<u8>) -> int {
    clamp_count(le_i32(s, 212))
}

/// The `i`-th texture-directory offset (an unsigned 32-bit file offset).
pub open spec fn dir_offset(s: Seq<u8>, i: int) -> int {
    le32(s, sat_off(extend_signed(le_i32(s, 216)), i, 4)) as int
}

/// The fault of reading the texture search-path strings from `i` on, if
/// any.
pub open spec fn texture_paths_fault(s: Seq<u8>, i: int) -> Option<ModelError>
    decreases texture_dir_count(s) - i,
{
    if i >= texture_dir_count(s) {
        None
    } else if crate::reader::string_fault(s, dir_offset(s, i), true) is Some {
        crate::reader::string_fault(s, dir_offset(s, i), true)
    } else {
        texture_paths_fault(s, i + 1)
    }
}

/// The fault of reading the skin table, if any.
pub open spec fn skin_fault(s: Seq<u8>) -> Option<ModelError> {
    table_fault(
        s,
        0,
        extend_signed(le_i32(s, 228)),
        2,
        skin_table_len(le_i32(s, 220) as int, le_i32(s, 224) as int),
        0,
        "u16",
        |s2: Seq<u8>, o: int| if s2.len() - o < 2 {
            Some(ModelError::Eof(2))
        } else {
            Option::<ModelError>::None
        },
    )
}

/// The fault of reading the bone table, if any.
pub open spec fn bones_fault(s: Seq<u8>) -> Option<ModelError> {
    table_fault(
        s,
        0,
        extend_signed(le_i32(s, 160)),
        BONE_SIZE as int,
        clamp_count(le_i32(s, 156)),
        0,
        "bone",
        |s2: Seq<u8>, o: int| bone_fault(s2, o),
    )
}

/// The first bone, from `i` on, whose parent index is not in `[-1, i)`,
/// as a fault: a parsable model is in topological order.
pub open spec fn bone_parent_fault(s: Seq<u8>, i: int) -> Option<ModelError>
    decreases clamp_count(le_i32(s, 156)) - i,
{
    let count = clamp_count(le_i32(s, 156));
    if i >= count {
        None
    } else {
        let p = le_i32(s, sat_off(extend_signed(le_i32(s, 160)), i, BONE_SIZE as int) + 4);
        if !(-1 <= p < i) {
            Some(ModelError::OutOfBounds { data: "bone_parent", offset: i as usize })
        } else {
            bone_parent_fault(s, i + 1)
        }
    }
}

/// The fault of reading the animation-description table, if any.
pub open spec fn animations_fault(s: Seq<u8>) -> Option<ModelError> {
    table_fault(
        s,
        0,
        extend_signed(le_i32(s, 184)),
        ANIMATION_DESCRIPTION_SIZE as int,
        clamp_count(le_i32(s, 180)),
        0,
        "animation_description",
        |s2: Seq<u8>, o: int| animation_description_fault(s2, o),
    )
}

/// The fault of reading the animation-block table, if any.
pub open spec fn blocks_fault(s: Seq<u8>) -> Option<ModelError> {
    table_fault(
        s,
        0,
        extend_signed(le_i32(s, 356)),
        ANIMATION_BLOCK_SIZE as int,
        clamp_count(le_i32(s, 352)),
        0,
        "animation_block",
        |s2: Seq<u8>, o: int| if s2.len() - o < ANIMATION_BLOCK_SIZE {
            Some(ModelError::Eof(ANIMATION_BLOCK_SIZE))
        } else {
            Option::<ModelError>::None
        },
    )
}

/// The fault of reading the pose-parameter table, if any.
pub open spec fn poses_fault(s: Seq<u8>) -> Option<ModelError> {
    table_fault(
        s,
        0,
        extend_signed(le_i32(s, 304)),
        POSE_PARAMETER_SIZE as int,
        clamp_count(le_i32(s, 300)),
        0,
        "pose_parameter",
        |s2: Seq<u8>, o: int| pose_parameter_fault(s2, o),
    )
}

/// The fault of reading the attachment table, if any.
pub open spec fn attachments_fault(s: Seq<u8>) -> Option<ModelError> {
    table_fault(
        s,
        0,
        extend_signed(le_i32(s, 244)),
        ATTACHMENT_SIZE as int,
        clamp_count(le_i32(s, 240)),
        0,
        "attachment",
        |s2: Seq<u8>, o: int| attachment_fault(s2, o),
    )
}

/// The fault of reading the hitbox-set table, if any.
pub open spec fn hitbox_sets_fault(s: Seq<u8>) -> Option<ModelError> {
    table_fault(
        s,
        0,
        extend_signed(le_i32(s, 176)),
        HITBOX_SET_SIZE as int,
        clamp_count(le_i32(s, 172)),
        0,
        "hitbox_set",
        |s2: Seq<u8>, o: int| hitbox_set_fault(s2, o),
    )
}

/// The fault of reading the body-part table, if any.
pub open spec fn body_parts_fault(s: Seq<u8>) -> Option<ModelError> {
    table_fault(
        s,
        0,
        extend_signed(le_i32(s, 236)),
        BODY_PART_SIZE as int,
        clamp_count(le_i32(s, 232)),
        0,
        "body_part",
        |s2: Seq<u8>, o: int| body_part_fault(s2, o),
    )
}

/// Whether parsing a whole model definition file fails, and how, in the
/// order of the reads: header, secondary header, name, textures, texture
/// directories and their path strings, skin table, bones (whose parent
/// indices must be in topological order), surface property, key values,
/// animations, the external-animation source name and block table, pose
/// parameters, attachments, hitbox sets, body parts.
pub open spec fn mdl_fault(s: Seq<u8>) -> Option<ModelError> {
    if s.len() < STUDIO_HEADER_SIZE {
        Some(ModelError::Eof(STUDIO_HEADER_SIZE))
    } else if le_i32(s, 400) > 0 && studio_header2_fault(s, le_i32(s, 400) as int) is Some {
        studio_header2_fault(s, le_i32(s, 400) as int)
    } else if fixed_string_fault(s.subrange(12, 76)) is Some {
        fixed_string_fault(s.subrange(12, 76))
    } else if textures_fault(s) is Some {
        textures_fault(s)
    } else if texture_dirs_fault(s) is Some {
        texture_dirs_fault(s)
    } else if texture_paths_fault(s, 0) is Some {
        texture_paths_fault(s, 0)
    } else if skin_fault(s) is Some {
        skin_fault(s)
    } else if bones_fault(s) is Some {
        bones_fault(s)
    } else if bone_parent_fault(s, 0) is Some {
        bone_parent_fault(s, 0)
    } else if string_rel_fault(s, 0, le_i32(s, 308), false) is Some {
        string_rel_fault(s, 0, le_i32(s, 308), false)
    } else if le_i32(s, 316) > 0 && string_rel_fault(s, 0, le_i32(s, 312), false) is Some {
        string_rel_fault(s, 0, le_i32(s, 312), false)
    } else if animations_fault(s) is Some {
        animations_fault(s)
    } else if string_rel_fault(s, 0, le_i32(s, 348), false) is Some {
        string_rel_fault(s, 0, le_i32(s, 348), false)
    } else if blocks_fault(s) is Some {
        blocks_fault(s)
    } else if poses_fault(s) is Some {
        poses_fault(s)
    } else if attachments_fault(s) is Some {
        attachments_fault(s)
    } else if hitbox_sets_fault(s) is Some {
        hitbox_sets_fault(s)
    } else if body_parts_fault(s) is Some {
        body_parts_fault(s)
    } else {
        None
    }
}

/// Whether `m` is the whole model definition stored in `s`.
pub open spec fn mdl_matches(m: Mdl, s: Seq<u8>) -> bool {
    &&& studio_header_matches(m.header, s)
    &&& (le_i32(s, 400) > 0 ==> (m.header2 matches Some(h2) && studio_header2_matches(
        h2,
        s,
        le_i32(s, 400) as int,
    )))
    &&& (le_i32(s, 400) <= 0 ==> m.header2 is None)
    &&& m.name@ == fixed_string_value(s.subrange(12, 76))
    &&& m.textures@.len() == clamp_count(le_i32(s, 204))
    &&& forall|i: int|
        0 <= i < m.textures@.len() ==> #[trigger] texture_matches(
            m.textures@[i],
            s,
            sat_off(extend_signed(le_i32(s, 208)), i, TEXTURE_SIZE as int),
        )
    &&& forall|i: int|
        0 <= i < m.textures@.len() ==> #[trigger] same_strings(
            m.textures@[i].search_paths@,
            m.texture_paths@,
        )
    &&& m.texture_paths@.len() == texture_dir_count(s)
    &&& forall|i: int|
        0 <= i < m.texture_paths@.len() ==> m.texture_paths@[i]@ == crate::reader::string_value(
            s,
            dir_offset(s, i),
            true,
        )
    &&& m.skin_table@.len() == skin_table_len(le_i32(s, 220) as int, le_i32(s, 224) as int)
    &&& forall|i: int|
        0 <= i < m.skin_table@.len() ==> m.skin_table@[i] == le16(
            s,
            sat_off(extend_signed(le_i32(s, 228)), i, 2),
        )
    &&& m.bones@.len() == clamp_count(le_i32(s, 156))
    &&& forall|i: int|
        0 <= i < m.bones@.len() ==> #[trigger] bone_matches(
            m.bones@[i],
            s,
            sat_off(extend_signed(le_i32(s, 160)), i, BONE_SIZE as int),
        )
    &&& m.surface_prop@ == string_rel_value(s, 0, le_i32(s, 308), false)
    &&& (le_i32(s, 316) > 0 ==> (m.key_values matches Some(kv) && kv@ == string_rel_value(
        s,
        0,
        le_i32(s, 312),
        false,
    )))
    &&& (le_i32(s, 316) <= 0 ==> m.key_values is None)
    &&& m.local_animations@.len() == clamp_count(le_i32(s, 180))
    &&& forall|i: int|
        0 <= i < m.local_animations@.len() ==> #[trigger] animation_description_matches(
            m.local_animations@[i],
            s,
            sat_off(extend_signed(le_i32(s, 184)), i, ANIMATION_DESCRIPTION_SIZE as int),
        )
    &&& m.animation_block_source@ == string_rel_value(s, 0, le_i32(s, 348), false)
    &&& m.animation_blocks@.len() == clamp_count(le_i32(s, 352))
    &&& forall|i: int|
        0 <= i < m.animation_blocks@.len() ==> m.animation_blocks@[i] == spec_animation_block(
            s,
            sat_off(extend_signed(le_i32(s, 356)), i, ANIMATION_BLOCK_SIZE as int),
        )
    &&& m.pose_parameters@.len() == clamp_count(le_i32(s, 300))
    &&& forall|i: int|
        0 <= i < m.pose_parameters@.len() ==> #[trigger] pose_parameter_matches(
            m.pose_parameters@[i],
            s,
            sat_off(extend_signed(le_i32(s, 304)), i, POSE_PARAMETER_SIZE as int),
        )
    &&& m.attachments@.len() == clamp_count(le_i32(s, 240))
    &&& forall|i: int|
        0 <= i < m.attachments@.len() ==> #[trigger] attachment_matches(
            m.attachments@[i],
            s,
            sat_off(extend_signed(le_i32(s, 244)), i, ATTACHMENT_SIZE as int),
        )
    &&& m.hit_boxes@.len() == clamp_count(le_i32(s, 172))
    &&& forall|i: int|
        0 <= i < m.hit_boxes@.len() ==> #[trigger] hitbox_set_matches(
            m.hit_boxes@[i],
            s,
            sat_off(extend_signed(le_i32(s, 176)), i, HITBOX_SET_SIZE as int),
        )
    &&& m.body_parts@.len() == clamp_count(le_i32(s, 232))
    &&& forall|i: int|
        0 <= i < m.body_parts@.len() ==> #[trigger] body_part_matches(
            m.body_parts@[i],
            s,
            sat_off(extend_signed(le_i32(s, 236)), i, BODY_PART_SIZE as int),
        )
}


// ------------------------------------------------------------------
// Table readers.
// ------------------------------------------------------------------

/// Read the texture table (search paths still empty).
#[verifier::loop_isolation(false)]
fn read_textures(data: &[u8]) -> (r: Result<Vec<TextureInfo>, ModelError>)
    requires
        data@.len() >= STUDIO_HEADER_SIZE,
    ensures
        match r {
            Ok(v) => {
                &&& textures_fault(data@) is None
                &&& v@.len() == clamp_count(le_i32(data@, 204))
                &&& forall|i: int|
                    0 <= i < v@.len() ==> #[trigger] texture_matches(
                        v@[i],
                        data@,
                        sat_off(extend_signed(le_i32(data@, 208)), i, TEXTURE_SIZE as int),
                    )
                &&& forall|i: int| 0 <= i < v@.len() ==> v@[i].search_paths@.len() == 0
            },
            Err(e) => textures_fault(data@) == Some(e),
        },
{
    let len = data.len();
    let tr = index_range(get_i32(data, 208), get_i32(data, 204), TEXTURE_SIZE);
    let mut out: Vec<TextureInfo> = Vec::new();
    let ghost child = |s2: Seq<u8>, o: int| texture_fault(s2, o);
    for i in 0..tr.len()
        invariant
            out@.len() == i,
            forall|j: int|
                0 <= j < i ==> #[trigger] texture_matches(
                    out@[j],
                    data@,
                    sat_off(tr.base as int, j, TEXTURE_SIZE as int),
                ),
            forall|j: int| 0 <= j < i ==> out@[j].search_paths@.len() == 0,
            table_fault(
                data@,
                0,
                tr.base as int,
                TEXTURE_SIZE as int,
                tr.count as int,
                i as int,
                "texture",
                child,
            ) == table_fault(
                data@,
                0,
                tr.base as int,
                TEXTURE_SIZE as int,
                tr.count as int,
                0,
                "texture",
                child,
            ),
    {
        let rel = tr.nth(i);
        if rel > len {
            return Err(ModelError::OutOfBounds { data: "texture", offset: rel });
        }
        match read_texture(data, rel) {
            Ok(v) => out.push(v),
            Err(e) => {
                return Err(e);
            },
        }
    }
    Ok(out)
}

/// Read the texture-directory offsets, then the path string each names.
#[verifier::loop_isolation(false)]
fn read_texture_paths(data: &[u8]) -> (r: Result<Vec<String>, ModelError>)
    requires
        data@.len() >= STUDIO_HEADER_SIZE,
    ensures
        match r {
            Ok(v) => {
                &&& texture_dirs_fault(data@) is None
                &&& texture_paths_fault(data@, 0) is None
                &&& v@.len() == texture_dir_count(data@)
                &&& forall|i: int|
                    0 <= i < v@.len() ==> v@[i]@ == crate::reader::string_value(
                        data@,
                        dir_offset(data@, i),
                        true,
                    )
            },
            Err(e) => {
                ||| texture_dirs_fault(data@) == Some(e)
                ||| texture_dirs_fault(data@) is None && texture_paths_fault(data@, 0) == Some(e)
            },
        },
{
    let len = data.len();
    let dr = index_range(get_i32(data, 216), get_i32(data, 212), 4);
    let mut dirs: Vec<u32> = Vec::new();
    let ghost child = |s2: Seq<u8>, o: int|
        if s2.len() - o < 4 {
            Some(ModelError::Eof(4))
        } else {
            Option::<ModelError>::None
        };
    for i in 0..dr.len()
        invariant
            dirs@.len() == i,
            forall|j: int| 0 <= j < i ==> dirs@[j] == le32(data@, sat_off(dr.base as int, j, 4)),
            table_fault(data@, 0, dr.base as int, 4, dr.count as int, i as int, "u32", child)
                == table_fault(data@, 0, dr.base as int, 4, dr.count as int, 0, "u32", child),
    {
        let rel = dr.nth(i);
        if rel > len {
            return Err(ModelError::OutOfBounds { data: "u32", offset: rel });
        }
        if len - rel < 4 {
            return Err(ModelError::Eof(4));
        }
        dirs.push(get_u32(data, rel));
    }
    let mut out: Vec<String> = Vec::new();
    for i in 0..dirs.len()
        invariant
            dirs@.len() == texture_dir_count(data@),
            forall|j: int| 0 <= j < dirs@.len() ==> dirs@[j] == le32(data@, sat_off(dr.base as int, j, 4)),
            out@.len() == i,
            forall|j: int|
                0 <= j < i ==> out@[j]@ == crate::reader::string_value(
                    data@,
                    dir_offset(data@, j),
                    true,
                ),
            texture_paths_fault(data@, i as int) == texture_paths_fault(data@, 0),
    {
        let d = dirs[i] as usize;
        proof {
            assert(d as int == dir_offset(data@, i as int));
        }
        match crate::reader::read_string(data, d, true) {
            Ok(v) => out.push(v),
            Err(e) => {
                return Err(e);
            },
        }
    }
    Ok(out)
}

/// Read the flat 16-bit skin table.
#[verifier::loop_isolation(false)]
fn read_skin_table(data: &[u8], header: &StudioHeader) -> (r: Result<Vec<u16>, ModelError>)
    requires
        data@.len() >= STUDIO_HEADER_SIZE,
        studio_header_matches(*header, data@),
    ensures
        match r {
            Ok(v) => {
                &&& skin_fault(data@) is None
                &&& v@.len() == skin_table_len(le_i32(data@, 220) as int, le_i32(data@, 224) as int)
                &&& forall|i: int|
                    0 <= i < v@.len() ==> v@[i] == le16(
                        data@,
                        sat_off(extend_signed(le_i32(data@, 228)), i, 2),
                    )
            },
            Err(e) => skin_fault(data@) == Some(e),
        },
{
    let len = data.len();
    let sr = header.skin_reference_indexes();
    let mut out: Vec<u16> = Vec::new();
    let ghost child = |s2: Seq<u8>, o: int|
        if s2.len() - o < 2 {
            Some(ModelError::Eof(2))
        } else {
            Option::<ModelError>::None
        };
    for i in 0..sr.len()
        invariant
            out@.len() == i,
            forall|j: int| 0 <= j < i ==> out@[j] == le16(data@, sat_off(sr.base as int, j, 2)),
            table_fault(data@, 0, sr.base as int, 2, sr.count as int, i as int, "u16", child)
                == table_fault(data@, 0, sr.base as int, 2, sr.count as int, 0, "u16", child),
    {
        let rel = sr.nth(i);
        if rel > len {
            return Err(ModelError::OutOfBounds { data: "u16", offset: rel });
        }
        if len - rel < 2 {
            return Err(ModelError::Eof(2));
        }
        out.push(get_u16(data, rel));
    }
    Ok(out)
}

/// Read the bone table and check that parents precede children.
#[verifier::loop_isolation(false)]
#[verifier::rlimit(60)]
fn read_bones(data: &[u8]) -> (r: Result<Vec<Bone>, ModelError>)
    requires
        data@.len() >= STUDIO_HEADER_SIZE,
    ensures
        match r {
            Ok(v) => {
                &&& bones_fault(data@) is None
                &&& bone_parent_fault(data@, 0) is None
                &&& v@.len() == clamp_count(le_i32(data@, 156))
                &&& forall|i: int|
                    0 <= i < v@.len() ==> #[trigger] bone_matches(
                        v@[i],
                        data@,
                        sat_off(extend_signed(le_i32(data@, 160)), i, BONE_SIZE as int),
                    )
                &&& forall|i: int| 0 <= i < v@.len() ==> -1 <= (#[trigger] v@[i]).parent < i
            },
            Err(e) => {
                ||| bones_fault(data@) == Some(e)
                ||| bones_fault(data@) is None && bone_parent_fault(data@, 0) == Some(e)
            },
        },
{
    let len = data.len();
    let br = index_range(get_i32(data, 160), get_i32(data, 156), BONE_SIZE);
    let mut out: Vec<Bone> = Vec::new();
    let ghost child = |s2: Seq<u8>, o: int| bone_fault(s2, o);
    for i in 0..br.len()
        invariant
            out@.len() == i,
            forall|j: int|
                0 <= j < i ==> #[trigger] bone_matches(
                    out@[j],
                    data@,
                    sat_off(br.base as int, j, BONE_SIZE as int),
                ),
            table_fault(
                data@,
                0,
                br.base as int,
                BONE_SIZE as int,
                br.count as int,
                i as int,
                "bone",
                child,
            ) == table_fault(
                data@,
                0,
                br.base as int,
                BONE_SIZE as int,
                br.count as int,
                0,
                "bone",
                child,
            ),
    {
        let rel = br.nth(i);
        if rel > len {
            return Err(ModelError::OutOfBounds { data: "bone", offset: rel });
        }
        match read_bone(data, rel) {
            Ok(v) => out.push(v),
            Err(e) => {
                return Err(e);
            },
        }
    }
    let n = out.len();
    for i in 0..n
        invariant
            n == out@.len(),
            forall|j: int| 0 <= j < i ==> -1 <= (#[trigger] out@[j]).parent < j,
            bone_parent_fault(data@, i as int) == bone_parent_fault(data@, 0),
    {
        proof {
            assert(bone_matches(
                out@[i as int],
                data@,
                sat_off(br.base as int, i as int, BONE_SIZE as int),
            ));
        }
        let p = out[i].parent;
        if !(p >= -1 && (p as i64) < (i as i64)) {
            return Err(ModelError::OutOfBounds { data: "bone_parent", offset: i });
        }
    }
    Ok(out)
}

/// Read the animation-description table.
#[verifier::loop_isolation(false)]
fn read_animations(data: &[u8]) -> (r: Result<Vec<AnimationDescription>, ModelError>)
    requires
        data@.len() >= STUDIO_HEADER_SIZE,
        data@.len() + 0x1_0000 <= usize::MAX,
    ensures
        match r {
            Ok(v) => {
                &&& animations_fault(data@) is None
                &&& v@.len() == clamp_count(le_i32(data@, 180))
                &&& forall|i: int|
                    0 <= i < v@.len() ==> #[trigger] animation_description_matches(
                        v@[i],
                        data@,
                        sat_off(
                            extend_signed(le_i32(data@, 184)),
                            i,
                            ANIMATION_DESCRIPTION_SIZE as int,
                        ),
                    )
            },
            Err(e) => animations_fault(data@) == Some(e),
        },
{
    let len = data.len();
    let ar = index_range(get_i32(data, 184), get_i32(data, 180), ANIMATION_DESCRIPTION_SIZE);
    let mut out: Vec<AnimationDescription> = Vec::new();
    let ghost child = |s2: Seq<u8>, o: int| animation_description_fault(s2, o);
    for i in 0..ar.len()
        invariant
            out@.len() == i,
            forall|j: int|
                0 <= j < i ==> #[trigger] animation_description_matches(
                    out@[j],
                    data@,
                    sat_off(ar.base as int, j, ANIMATION_DESCRIPTION_SIZE as int),
                ),
            table_fault(
                data@,
                0,
                ar.base as int,
                ANIMATION_DESCRIPTION_SIZE as int,
                ar.count as int,
                i as int,
                "animation_description",
                child,
            ) == table_fault(
                data@,
                0,
                ar.base as int,
                ANIMATION_DESCRIPTION_SIZE as int,
                ar.count as int,
                0,
                "animation_description",
                child,
            ),
    {
        let rel = ar.nth(i);
        if rel > len {
            return Err(ModelError::OutOfBounds { data: "animation_description", offset: rel });
        }
        match read_animation_description(data, rel) {
            Ok(v) => out.push(v),
            Err(e) => {
                return Err(e);
            },
        }
    }
    Ok(out)
}

/// Read the animation-block table.
#[verifier::loop_isolation(false)]
fn read_blocks(data: &[u8]) -> (r: Result<Vec<AnimationBlock>, ModelError>)
    requires
        data@.len() >= STUDIO_HEADER_SIZE,
    ensures
        match r {
            Ok(v) => {
                &&& blocks_fault(data@) is None
                &&& v@.len() == clamp_count(le_i32(data@, 352))
                &&& forall|i: int|
                    0 <= i < v@.len() ==> v@[i] == spec_animation_block(
                        data@,
                        sat_off(extend_signed(le_i32(data@, 356)), i, ANIMATION_BLOCK_SIZE as int),
                    )
            },
            Err(e) => blocks_fault(data@) == Some(e),
        },
{
    let len = data.len();
    let brr = index_range(get_i32(data, 356), get_i32(data, 352), ANIMATION_BLOCK_SIZE);
    let mut out: Vec<AnimationBlock> = Vec::new();
    let ghost child = |s2: Seq<u8>, o: int|
        if s2.len() - o < ANIMATION_BLOCK_SIZE {
            Some(ModelError::Eof(ANIMATION_BLOCK_SIZE))
        } else {
            Option::<ModelError>::None
        };
    for i in 0..brr.len()
        invariant
            out@.len() == i,
            forall|j: int|
                0 <= j < i ==> out@[j] == spec_animation_block(
                    data@,
                    sat_off(brr.base as int, j, ANIMATION_BLOCK_SIZE as int),
                ),
            table_fault(
                data@,
                0,
                brr.base as int,
                ANIMATION_BLOCK_SIZE as int,
                brr.count as int,
                i as int,
                "animation_block",
                child,
            ) == table_fault(
                data@,
                0,
                brr.base as int,
                ANIMATION_BLOCK_SIZE as int,
                brr.count as int,
                0,
                "animation_block",
                child,
            ),
    {
        let rel = brr.nth(i);
        if rel > len {
            return Err(ModelError::OutOfBounds { data: "animation_block", offset: rel });
        }
        if len - rel < ANIMATION_BLOCK_SIZE {
            return Err(ModelError::Eof(ANIMATION_BLOCK_SIZE));
        }
        out.push(AnimationBlock { start: get_i32(data, rel), end: get_i32(data, rel + 4) });
    }
    Ok(out)
}

/// Read the pose-parameter table.
#[verifier::loop_isolation(false)]
fn read_poses(data: &[u8]) -> (r: Result<Vec<PoseParameterDescription>, ModelError>)
    requires
        data@.len() >= STUDIO_HEADER_SIZE,
    ensures
        match r {
            Ok(v) => {
                &&& poses_fault(data@) is None
                &&& v@.len() == clamp_count(le_i32(data@, 300))
                &&& forall|i: int|
                    0 <= i < v@.len() ==> #[trigger] pose_parameter_matches(
                        v@[i],
                        data@,
                        sat_off(extend_signed(le_i32(data@, 304)), i, POSE_PARAMETER_SIZE as int),
                    )
            },
            Err(e) => poses_fault(data@) == Some(e),
        },
{
    let len = data.len();
    let pr = index_range(get_i32(data, 304), get_i32(data, 300), POSE_PARAMETER_SIZE);
    let mut out: Vec<PoseParameterDescription> = Vec::new();
    let ghost child = |s2: Seq<u8>, o: int| pose_parameter_fault(s2, o);
    for i in 0..pr.len()
        invariant
            out@.len() == i,
            forall|j: int|
                0 <= j < i ==> #[trigger] pose_parameter_matches(
                    out@[j],
                    data@,
                    sat_off(pr.base as int, j, POSE_PARAMETER_SIZE as int),
                ),
            table_fault(
                data@,
                0,
                pr.base as int,
                POSE_PARAMETER_SIZE as int,
                pr.count as int,
                i as int,
                "pose_parameter",
                child,
            ) == table_fault(
                data@,
                0,
                pr.base as int,
                POSE_PARAMETER_SIZE as int,
                pr.count as int,
                0,
                "pose_parameter",
                child,
            ),
    {
        let rel = pr.nth(i);
        if rel > len {
            return Err(ModelError::OutOfBounds { data: "pose_parameter", offset: rel });
        }
        match read_pose_parameter(data, rel) {
            Ok(v) => out.push(v),
            Err(e) => {
                return Err(e);
            },
        }
    }
    Ok(out)
}

/// Read the attachment table.
#[verifier::loop_isolation(false)]
fn read_attachments(data: &[u8]) -> (r: Result<Vec<StudioAttachment>, ModelError>)
    requires
        data@.len() >= STUDIO_HEADER_SIZE,
    ensures
        match r {
            Ok(v) => {
                &&& attachments_fault(data@) is None
                &&& v@.len() == clamp_count(le_i32(data@, 240))
                &&& forall|i: int|
                    0 <= i < v@.len() ==> #[trigger] attachment_matches(
                        v@[i],
                        data@,
                        sat_off(extend_signed(le_i32(data@, 244)), i, ATTACHMENT_SIZE as int),
                    )
            },
            Err(e) => attachments_fault(data@) == Some(e),
        },
{
    let len = data.len();
    let ar = index_range(get_i32(data, 244), get_i32(data, 240), ATTACHMENT_SIZE);
    let mut out: Vec<StudioAttachment> = Vec::new();
    let ghost child = |s2: Seq<u8>, o: int| attachment_fault(s2, o);
    for i in 0..ar.len()
        invariant
            out@.len() == i,
            forall|j: int|
                0 <= j < i ==> #[trigger] attachment_matches(
                    out@[j],
                    data@,
                    sat_off(ar.base as int, j, ATTACHMENT_SIZE as int),
                ),
            table_fault(
                data@,
                0,
                ar.base as int,
                ATTACHMENT_SIZE as int,
                ar.count as int,
                i as int,
                "attachment",
                child,
            ) == table_fault(
                data@,
                0,
                ar.base as int,
                ATTACHMENT_SIZE as int,
                ar.count as int,
                0,
                "attachment",
                child,
            ),
    {
        let rel = ar.nth(i);
        if rel > len {
            return Err(ModelError::OutOfBounds { data: "attachment", offset: rel });
        }
        match read_attachment(data, rel) {
            Ok(v) => out.push(v),
            Err(e) => {
                return Err(e);
            },
        }
    }
    Ok(out)
}

/// Read the hitbox-set table.
#[verifier::loop_isolation(false)]
fn read_hitbox_sets(data: &[u8]) -> (r: Result<Vec<HitBoxSet>, ModelError>)
    requires
        data@.len() >= STUDIO_HEADER_SIZE,
    ensures
        match r {
            Ok(v) => {
                &&& hitbox_sets_fault(data@) is None
                &&& v@.len() == clamp_count(le_i32(data@, 172))
                &&& forall|i: int|
                    0 <= i < v@.len() ==> #[trigger] hitbox_set_matches(
                        v@[i],
                        data@,
                        sat_off(extend_signed(le_i32(data@, 176)), i, HITBOX_SET_SIZE as int),
                    )
            },
            Err(e) => hitbox_sets_fault(data@) == Some(e),
        },
{
    let len = data.len();
    let hr = index_range(get_i32(data, 176), get_i32(data, 172), HITBOX_SET_SIZE);
    let mut out: Vec<HitBoxSet> = Vec::new();
    let ghost child = |s2: Seq<u8>, o: int| hitbox_set_fault(s2, o);
    for i in 0..hr.len()
        invariant
            out@.len() == i,
            forall|j: int|
                0 <= j < i ==> #[trigger] hitbox_set_matches(
                    out@[j],
                    data@,
                    sat_off(hr.base as int, j, HITBOX_SET_SIZE as int),
                ),
            table_fault(
                data@,
                0,
                hr.base as int,
                HITBOX_SET_SIZE as int,
                hr.count as int,
                i as int,
                "hitbox_set",
                child,
            ) == table_fault(
                data@,
                0,
                hr.base as int,
                HITBOX_SET_SIZE as int,
                hr.count as int,
                0,
                "hitbox_set",
                child,
            ),
    {
        let rel = hr.nth(i);
        if rel > len {
            return Err(ModelError::OutOfBounds { data: "hitbox_set", offset: rel });
        }
        match read_hitbox_set(data, rel) {
            Ok(v) => out.push(v),
            Err(e) => {
                return Err(e);
            },
        }
    }
    Ok(out)
}

/// Read the body-part table.
#[verifier::loop_isolation(false)]
fn read_body_parts(data: &[u8]) -> (r: Result<Vec<BodyPart>, ModelError>)
    requires
        data@.len() >= STUDIO_HEADER_SIZE,
    ensures
        match r {
            Ok(v) => {
                &&& body_parts_fault(data@) is None
                &&& v@.len() == clamp_count(le_i32(data@, 232))
                &&& forall|i: int|
                    0 <= i < v@.len() ==> #[trigger] body_part_matches(
                        v@[i],
                        data@,
                        sat_off(extend_signed(le_i32(data@, 236)), i, BODY_PART_SIZE as int),
                    )
            },
            Err(e) => body_parts_fault(data@) == Some(e),
        },
{
    let len = data.len();
    let br = index_range(get_i32(data, 236), get_i32(data, 232), BODY_PART_SIZE);
    let mut out: Vec<BodyPart> = Vec::new();
    let ghost child = |s2: Seq<u8>, o: int| body_part_fault(s2, o);
    for i in 0..br.len()
        invariant
            out@.len() == i,
            forall|j: int|
                0 <= j < i ==> #[trigger] body_part_matches(
                    out@[j],
                    data@,
                    sat_off(br.base as int, j, BODY_PART_SIZE as int),
                ),
            table_fault(
                data@,
                0,
                br.base as int,
                BODY_PART_SIZE as int,
                br.count as int,
                i as int,
                "body_part",
                child,
            ) == table_fault(
                data@,
                0,
                br.base as int,
                BODY_PART_SIZE as int,
                br.count as int,
                0,
                "body_part",
                child,
            ),
    {
        let rel = br.nth(i);
        if rel > len {
            return Err(ModelError::OutOfBounds { data: "body_part", offset: rel });
        }
        match read_body_part(data, rel) {
            Ok(v) => out.push(v),
            Err(e) => {
                return Err(e);
            },
        }
    }
    Ok(out)
}

impl Mdl {
    /// Parse a whole model definition file. On success every table the
    /// header names is read exactly as it lies in the bytes; every bone's
    /// parent index lies in `[-1, i)` (parents precede children); every
    /// fault is the named error, never a panic.
    pub fn read(data: &[u8]) -> (r: Result<Mdl, ModelError>)
        requires
            data@.len() + 0x1_0000 <= usize::MAX,
        ensures
            match r {
                Ok(m) => {
                    &&& mdl_fault(data@) is None
                    &&& mdl_matches(m, data@)
                    &&& forall|i: int| 0 <= i < m.bones@.len() ==> -1 <= (#[trigger] m.bones@[i]).parent < i
                },
                Err(e) => mdl_fault(data@) == Some(e),
            },
    {
        let header = match StudioHeader::read(data) {
            Ok(h) => h,
            Err(e) => {
                return Err(e);
            },
        };
        let header2 = match header.header2_index() {
            Some(idx) => match StudioHeader2::read(data, idx) {
                Ok(h2) => Some(h2),
                Err(e) => {
                    return Err(e);
                },
            },
            None => None,
        };
        let name = match fixed_string(&header.name) {
            Ok(v) => v,
            Err(e) => {
                return Err(e);
            },
        };
        let bare_textures = match read_textures(data) {
            Ok(v) => v,
            Err(e) => {
                return Err(e);
            },
        };
        let texture_paths = match read_texture_paths(data) {
            Ok(v) => v,
            Err(e) => {
                return Err(e);
            },
        };
        let mut textures: Vec<TextureInfo> = Vec::new();
        for i in 0..bare_textures.len()
            invariant
                data@.len() >= STUDIO_HEADER_SIZE,
                bare_textures@.len() == clamp_count(le_i32(data@, 204)),
                forall|j: int|
                    0 <= j < bare_textures@.len() ==> #[trigger] texture_matches(
                        bare_textures@[j],
                        data@,
                        sat_off(extend_signed(le_i32(data@, 208)), j, TEXTURE_SIZE as int),
                    ),
                textures@.len() == i,
                forall|j: int|
                    0 <= j < i ==> #[trigger] texture_matches(
                        textures@[j],
                        data@,
                        sat_off(extend_signed(le_i32(data@, 208)), j, TEXTURE_SIZE as int),
                    ),
                forall|j: int|
                    0 <= j < i ==> #[trigger] same_strings(
                        textures@[j].search_paths@,
                        texture_paths@,
                    ),
        {
            let t = &bare_textures[i];
            proof {
                assert(texture_matches(
                    bare_textures@[i as int],
                    data@,
                    sat_off(extend_signed(le_i32(data@, 208)), i as int, TEXTURE_SIZE as int),
                ));
            }
            textures.push(
                TextureInfo {
                    name: t.name.clone(),
                    name_index: t.name_index,
                    search_paths: clone_strings(&texture_paths),
                },
            );
        }
        let skin_table = match read_skin_table(data, &header) {
            Ok(v) => v,
            Err(e) => {
                return Err(e);
            },
        };
        let bones = match read_bones(data) {
            Ok(v) => v,
            Err(e) => {
                return Err(e);
            },
        };
        let surface_prop = match read_string_rel(data, 0, header.surface_prop_index, false) {
            Ok(v) => v,
            Err(e) => {
                return Err(e);
            },
        };
        let key_values = if header.key_value_count > 0 {
            match read_string_rel(data, 0, header.key_value_index, false) {
                Ok(v) => Some(v),
                Err(e) => {
                    return Err(e);
                },
            }
        } else {
            None
        };
        let local_animations = match read_animations(data) {
            Ok(v) => v,
            Err(e) => {
                return Err(e);
            },
        };
        let animation_block_source = match read_string_rel(
            data,
            0,
            header.anim_blocks_name_index,
            false,
        ) {
            Ok(v) => v,
            Err(e) => {
                return Err(e);
            },
        };
        let animation_blocks = match read_blocks(data) {
            Ok(v) => v,
            Err(e) => {
                return Err(e);
            },
        };
        let pose_parameters = match read_poses(data) {
            Ok(v) => v,
            Err(e) => {
                return Err(e);
            },
        };
        let attachments = match read_attachments(data) {
            Ok(v) => v,
            Err(e) => {
                return Err(e);
            },
        };
        let hit_boxes = match read_hitbox_sets(data) {
            Ok(v) => v,
            Err(e) => {
                return Err(e);
            },
        };
        let body_parts = match read_body_parts(data) {
            Ok(v) => v,
            Err(e) => {
                return Err(e);
            },
        };
        Ok(
            Mdl {
                name,
                header,
                header2,
                bones,
                body_parts,
                textures,
                texture_paths,
                skin_table,
                surface_prop,
                key_values,
                local_animations,
                animation_block_source,
                animation_blocks,
                pose_parameters,
                attachments,
                hit_boxes,
            },
        )
    }
}



// ------------------------------------------------------------------
// Bone-tree navigation.
// ------------------------------------------------------------------

/// Whether every bone's parent index precedes it; every parsed model
/// satisfies this.
pub open spec fn bones_topological(bones: Seq<Bone>) -> bool {
    forall|i: int| 0 <= i < bones.len() ==> -1 <= (#[trigger] bones[i]).parent < i
}

/// The children of bone `b` among the first `n` bones, in index order.
pub open spec fn children_of(bones: Seq<Bone>, b: int, n: int) -> Seq<int>
    decreases n,
{
    if n <= 0 {
        Seq::empty()
    } else if bones[n - 1].parent == b {
        children_of(bones, b, n - 1).push(n - 1)
    } else {
        children_of(bones, b, n - 1)
    }
}

/// The ancestors of bone `b`: its parent, then the parent's parent, up
/// to a root.
pub open spec fn ancestors_of(bones: Seq<Bone>, b: int) -> Seq<int>
    decreases b
        when bones_topological(bones) && 0 <= b < bones.len()
{
    let p = bones[b].parent as int;
    if p < 0 {
        Seq::empty()
    } else {
        seq![p] + ancestors_of(bones, p)
    }
}

impl Mdl {
    /// The index of a bone's parent, or `None` for a root or an index
    /// outside the bone table.
    pub fn bone_parent(&self, bone: usize) -> (r: Option<usize>)
        ensures
            match r {
                Some(p) => bone < self.bones@.len() && self.bones@[bone as int].parent == p,
                None => !(bone < self.bones@.len() && self.bones@[bone as int].parent >= 0),
            },
    {
        if bone < self.bones.len() {
            let p = self.bones[bone].parent;
            if p >= 0 {
                Some(p as usize)
            } else {
                None
            }
        } else {
            None
        }
    }

    /// The children of a bone, in index order.
    #[verifier::loop_isolation(false)]
    pub fn bone_children(&self, bone: usize) -> (r: Vec<usize>)
        ensures
            r@.map_values(|v: usize| v as int) == children_of(
                self.bones@,
                bone as int,
                self.bones@.len() as int,
            ),
    {
        let n = self.bones.len();
        let mut out: Vec<usize> = Vec::new();
        for i in 0..n
            invariant
                out@.map_values(|v: usize| v as int) == children_of(
                    self.bones@,
                    bone as int,
                    i as int,
                ),
        {
            let p = self.bones[i].parent;
            if p >= 0 && p as usize == bone {
                out.push(i);
            }
            proof {
                if p >= 0 && p == bone as int {
                    assert(out@.map_values(|v: usize| v as int) =~= children_of(
                        self.bones@,
                        bone as int,
                        i + 1 as int,
                    ));
                } else {
                    assert(self.bones@[i as int].parent != bone as int);
                }
            }
        }
        out
    }

    /// The chain of a bone's ancestors, nearest first.
    #[verifier::loop_isolation(false)]
    pub fn bone_ancestors(&self, bone: usize) -> (r: Vec<usize>)
        requires
            bones_topological(self.bones@),
            bone < self.bones@.len(),
        ensures
            r@.map_values(|v: usize| v as int) == ancestors_of(self.bones@, bone as int),
    {
        let mut out: Vec<usize> = Vec::new();
        let mut cur = bone;
        while self.bones[cur].parent >= 0
            invariant
                cur < self.bones@.len(),
                ancestors_of(self.bones@, bone as int) == out@.map_values(|v: usize| v as int)
                    + ancestors_of(self.bones@, cur as int),
            decreases cur,
        {
            let p = self.bones[cur].parent as usize;
            out.push(p);
            proof {
                assert(out@.map_values(|v: usize| v as int) =~= out@.drop_last().map_values(
                    |v: usize| v as int,
                ).push(p as int));
                assert(out@.drop_last().map_values(|v: usize| v as int).push(p as int)
                    + ancestors_of(self.bones@, p as int) =~= out@.drop_last().map_values(
                    |v: usize| v as int,
                ) + (seq![p as int] + ancestors_of(self.bones@, p as int)));
            }
            cur = p;
        }
        proof {
            assert(out@.map_values(|v: usize| v as int) + ancestors_of(self.bones@, cur as int)
                =~= out@.map_values(|v: usize| v as int));
        }
        out
    }

    /// Whether `bone` is `other` itself or descends from it.
    #[verifier::loop_isolation(false)]
    pub fn bone_is_affected_by(&self, bone: usize, other: usize) -> (r: bool)
        requires
            bones_topological(self.bones@),
            bone < self.bones@.len(),
        ensures
            r <==> (bone == other || ancestors_of(self.bones@, bone as int).contains(
                other as int,
            )),
    {
        if bone == other {
            return true;
        }
        let ancestors = self.bone_ancestors(bone);
        let n = ancestors.len();
        let ghost chain = ancestors_of(self.bones@, bone as int);
        for i in 0..n
            invariant
                n == ancestors@.len() == chain.len(),
                forall|j: int| 0 <= j < n ==> chain[j] == (#[trigger] ancestors@[j]) as int,
                forall|j: int| 0 <= j < i ==> chain[j] != other as int,
        {
            if ancestors[i] == other {
                return true;
            }
        }
        false
    }
}

} // verus!
