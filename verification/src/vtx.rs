//! The triangle-strip index (`.dx90.vtx`) reader: the hierarchy
//! body part → model → detail level → mesh → strip group → strip, and the
//! strip-to-triangle expansion.

use vstd::prelude::*;

use crate::error::ModelError;
use crate::reader::{
    extend_signed, extend_to_usize, get_i32, get_u16, get_u8, index_range, le16, le_i32, le32,
    sat_add32, sat_off, saturating_add32, table_fault, table_matches, IndexRange,
};

verus! {

/// The VTX format version this crate reads.
pub const MDL_VERSION: i32 = 7;

/// The byte size of the VTX file header.
pub const VTX_HEADER_SIZE: usize = 36;

/// The byte size of one body-part record.
pub const VTX_BODY_PART_SIZE: usize = 8;

/// The byte size of one model record.
pub const VTX_MODEL_SIZE: usize = 8;

/// The byte size of one detail-level record.
pub const VTX_LOD_SIZE: usize = 12;

/// The byte size of one mesh record.
pub const VTX_MESH_SIZE: usize = 9;

/// The byte size of one strip-group record.
pub const STRIP_GROUP_SIZE: usize = 25;

/// The byte size of one strip record.
pub const STRIP_SIZE: usize = 27;

/// The byte size of one indirection-vertex record.
pub const VTX_VERTEX_SIZE: usize = 9;

// ------------------------------------------------------------------
// Flags.
// ------------------------------------------------------------------

/// Per-mesh flags (teeth, eyes).
#[derive(Debug, Clone, Copy, PartialEq, Eq, Structural)]
pub struct MeshFlags(pub u8);

/// Per-strip-group flags (flexed, hardware skinned, ...).
#[derive(Debug, Clone, Copy, PartialEq, Eq, Structural)]
pub struct StripGroupFlags(pub u8);

/// Per-strip flags: triangle list (bit 0) or triangle strip (bit 1).
#[derive(Debug, Clone, Copy, PartialEq, Eq, Structural)]
pub struct StripFlags(pub u8);

/// Whether the strip flags mark a triangle list.
pub open spec fn is_tri_list(f: StripFlags) -> bool {
    f.0 % 2 == 1
}

/// Whether the strip flags mark a triangle strip.
pub open spec fn is_tri_strip(f: StripFlags) -> bool {
    f.0 / 2 % 2 == 1
}

impl StripFlags {
    /// Whether bit 0, the triangle-list flag, is set.
    pub fn tri_list(&self) -> (r: bool)
        ensures
            r == is_tri_list(*self),
    {
        self.0 % 2 == 1
    }

    /// Whether bit 1, the triangle-strip flag, is set.
    pub fn tri_strip(&self) -> (r: bool)
        ensures
            r == is_tri_strip(*self),
    {
        self.0 / 2 % 2 == 1
    }
}

// ------------------------------------------------------------------
// Raw headers.
// ------------------------------------------------------------------

/// The VTX file header.
#[derive(Debug, Clone, Copy, PartialEq, Eq)]
pub struct VtxHeader {
    pub version: i32,
    pub vertex_cache_size: i32,
    pub max_bones_per_strip: u16,
    pub max_bones_per_triangle: u16,
    pub max_bones_per_vertex: i32,
    pub checksum: [u8; 4],
    pub lod_count: i32,
    pub material_replacement_list: i32,
    pub body_part_count: i32,
    pub body_part_offset: i32,
}

impl VtxHeader {
    /// The offsets of the body-part records.
    pub fn body_indexes(&self) -> (r: IndexRange)
        ensures
            r.base as int == extend_signed(self.body_part_offset),
            r.count == clamp_count(self.body_part_count),
            r.stride == VTX_BODY_PART_SIZE,
    {
        index_range(self.body_part_offset, self.body_part_count, VTX_BODY_PART_SIZE)
    }
}

/// One body-part record: where its model table lies.
#[derive(Debug, Clone, Copy, PartialEq, Eq, Structural)]
pub struct BodyPartHeader {
    pub model_count: i32,
    pub model_offset: i32,
}

impl BodyPartHeader {
    /// The offsets of the model records, relative to this record.
    pub fn model_indexes(&self) -> (r: IndexRange)
        ensures
            r.base as int == extend_signed(self.model_offset),
            r.count == clamp_count(self.model_count),
            r.stride == VTX_MODEL_SIZE,
    {
        index_range(self.model_offset, self.model_count, VTX_MODEL_SIZE)
    }
}

/// One model record: where its detail-level table lies.
#[derive(Debug, Clone, Copy, PartialEq, Eq, Structural)]
pub struct ModelHeader {
    pub lod_count: i32,
    pub lod_offset: i32,
}

impl ModelHeader {
    /// The offsets of the detail-level records, relative to this record.
    pub fn lod_indexes(&self) -> (r: IndexRange)
        ensures
            r.base as int == extend_signed(self.lod_offset),
            r.count == clamp_count(self.lod_count),
            r.stride == VTX_LOD_SIZE,
    {
        index_range(self.lod_offset, self.lod_count, VTX_LOD_SIZE)
    }
}

/// One detail-level record: where its mesh table lies and the screen size
/// at which the level switches (an IEEE-754 bit pattern).
#[derive(Debug, Clone, Copy, PartialEq, Eq, Structural)]
pub struct ModelLodHeader {
    pub mesh_count: i32,
    pub mesh_offset: i32,
    pub switch_point: u32,
}

impl ModelLodHeader {
    /// The offsets of the mesh records, relative to this record.
    pub fn mesh_indexes(&self) -> (r: IndexRange)
        ensures
            r.base as int == extend_signed(self.mesh_offset),
            r.count == clamp_count(self.mesh_count),
            r.stride == VTX_MESH_SIZE,
    {
        index_range(self.mesh_offset, self.mesh_count, VTX_MESH_SIZE)
    }
}

/// One mesh record: where its strip-group table lies.
#[derive(Debug, Clone, Copy, PartialEq, Eq, Structural)]
pub struct MeshHeader {
    pub strip_group_count: i32,
    pub strip_group_offset: i32,
    pub flags: MeshFlags,
}

impl MeshHeader {
    /// The offsets of the strip-group records, relative to this record.
    pub fn strip_group_indexes(&self) -> (r: IndexRange)
        ensures
            r.base as int == extend_signed(self.strip_group_offset),
            r.count == clamp_count(self.strip_group_count),
            r.stride == STRIP_GROUP_SIZE,
    {
        index_range(self.strip_group_offset, self.strip_group_count, STRIP_GROUP_SIZE)
    }
}

/// One strip-group record: where its vertex, index and strip tables lie.
#[derive(Debug, Clone, Copy, PartialEq, Eq, Structural)]
pub struct StripGroupHeader {
    pub vertex_count: i32,
    pub vertex_offset: i32,
    pub index_count: i32,
    pub index_offset: i32,
    pub strip_count: i32,
    pub strip_offset: i32,
    pub flags: StripGroupFlags,
}

impl StripGroupHeader {
    /// The offsets of the indirection-vertex records, relative to this
    /// record.
    pub fn vertex_indexes(&self) -> (r: IndexRange)
        ensures
            r.base as int == extend_signed(self.vertex_offset),
            r.count == clamp_count(self.vertex_count),
            r.stride == VTX_VERTEX_SIZE,
    {
        index_range(self.vertex_offset, self.vertex_count, VTX_VERTEX_SIZE)
    }

    /// The offsets of the 16-bit indices, relative to this record.
    pub fn index_indexes(&self) -> (r: IndexRange)
        ensures
            r.base as int == extend_signed(self.index_offset),
            r.count == clamp_count(self.index_count),
            r.stride == 2,
    {
        index_range(self.index_offset, self.index_count, 2)
    }

    /// The offsets of the strip records, relative to this record.
    pub fn strip_indexes(&self) -> (r: IndexRange)
        ensures
            r.base as int == extend_signed(self.strip_offset),
            r.count == clamp_count(self.strip_count),
            r.stride == STRIP_SIZE,
    {
        index_range(self.strip_offset, self.strip_count, STRIP_SIZE)
    }
}

/// One strip record: its index and vertex sub-ranges of the group arrays.
#[derive(Debug, Clone, Copy, PartialEq, Eq, Structural)]
pub struct StripHeader {
    pub index_count: i32,
    pub index_offset: i32,
    pub vertex_count: i32,
    pub vertex_offset: i32,
    pub bone_count: u16,
    pub flags: StripFlags,
    pub bone_state_change_count: i32,
    pub bone_state_change_offset: i32,
}

impl StripHeader {
    /// The strip's sub-range of the group's vertex array.
    pub fn vertex_indexes(&self) -> (r: IndexRange)
        ensures
            r.base as int == extend_signed(self.vertex_offset),
            r.count as int == range_len(self.vertex_offset, self.vertex_count),
            r.stride == 1,
    {
        range_of(self.vertex_offset, self.vertex_count)
    }

    /// The strip's sub-range of the group's index array.
    pub fn index_indexes(&self) -> (r: IndexRange)
        ensures
            r.base as int == extend_signed(self.index_offset),
            r.count as int == range_len(self.index_offset, self.index_count),
            r.stride == 1,
    {
        range_of(self.index_offset, self.index_count)
    }

    /// The offsets of the bone-state-change records, relative to this
    /// record.
    pub fn bone_state_change_indexes(&self) -> (r: IndexRange)
        ensures
            r.base as int == extend_signed(self.bone_state_change_offset),
            r.count == clamp_count(self.bone_state_change_count),
            r.stride == 1,
    {
        index_range(self.bone_state_change_offset, self.bone_state_change_count, 1)
    }
}

/// A record count as the table walk uses it: negative counts are empty.
pub open spec fn clamp_count(c: i32) -> int {
    if c >= 0 {
        c as int
    } else {
        0
    }
}

/// The length of the sub-range `[offset, offset + count)` once both ends
/// are turned into indices (the end saturated as a signed sum); an end
/// before the start is empty.
pub open spec fn range_len(offset: i32, count: i32) -> int {
    let start = extend_signed(offset);
    let end = extend_int(sat_add32(offset as int, count as int));
    if end >= start {
        end - start
    } else {
        0
    }
}

/// [`extend_signed`] on a mathematical value already in the signed 32-bit
/// range.
pub open spec fn extend_int(v: int) -> int {
    if v >= 0 {
        v
    } else {
        usize::MAX + 1 + v
    }
}

/// The sub-range `[offset, offset + count)` as consecutive indices.
pub fn range_of(offset: i32, count: i32) -> (r: IndexRange)
    ensures
        r.base as int == extend_signed(offset),
        r.count as int == range_len(offset, count),
        r.stride == 1,
{
    let start = extend_to_usize(offset);
    let end = extend_to_usize(saturating_add32(offset, count));
    let n: usize = if end >= start {
        end - start
    } else {
        0
    };
    IndexRange { base: start, count: n, stride: 1 }
}

// ------------------------------------------------------------------
// The parsed tree.
// ------------------------------------------------------------------

/// One indirection vertex of a strip group; `original_mesh_vertex_id`
/// points into the canonical vertex array (plus the mesh's base offset).
#[derive(Debug, Clone, Copy, PartialEq, Eq)]
pub struct Vertex {
    pub bone_weight_indexes: [u8; 3],
    pub bone_count: u8,
    pub original_mesh_vertex_id: u16,
    pub bone_id: [u8; 3],
}

/// One strip: a sub-range of its group's index and vertex arrays and the
/// flag that says how the indices become triangles.
#[derive(Debug, Clone, Copy, PartialEq, Eq, Structural)]
pub struct Strip {
    pub flags: StripFlags,
    pub index_start: usize,
    pub index_count: usize,
    pub vertex_start: usize,
    pub vertex_count: usize,
}

/// A group of strips over shared vertex and index arrays.
#[derive(Debug, Clone, PartialEq, Eq)]
pub struct StripGroup {
    pub indices: Vec<u16>,
    pub vertices: Vec<Vertex>,
    pub strips: Vec<Strip>,
    pub flags: StripGroupFlags,
}

/// One mesh: its strip groups.
#[derive(Debug, Clone, PartialEq, Eq)]
pub struct Mesh {
    pub strip_groups: Vec<StripGroup>,
    pub flags: MeshFlags,
}

/// One detail level of a model: its meshes.
#[derive(Debug, Clone, PartialEq, Eq)]
pub struct ModelLod {
    pub meshes: Vec<Mesh>,
    /// An IEEE-754 single-precision bit pattern.
    pub switch_point: u32,
}

/// One model: its detail levels, highest first.
#[derive(Debug, Clone, PartialEq, Eq)]
pub struct Model {
    pub lods: Vec<ModelLod>,
}

/// One body part: its models.
#[derive(Debug, Clone, PartialEq, Eq)]
pub struct BodyPart {
    pub models: Vec<Model>,
}

/// A parsed triangle-strip index file.
#[derive(Debug, Clone, PartialEq, Eq)]
pub struct Vtx {
    pub header: VtxHeader,
    pub body_parts: Vec<BodyPart>,
}

// ------------------------------------------------------------------
// Wire layout: values.
// ------------------------------------------------------------------

/// The indirection vertex stored at byte offset `off`.
pub open spec fn spec_vtx_vertex(s: Seq<u8>, off: int) -> Vertex {
    Vertex {
        bone_weight_indexes: [s[off], s[off + 1], s[off + 2]],
        bone_count: s[off + 3],
        original_mesh_vertex_id: le16(s, off + 4),
        bone_id: [s[off + 6], s[off + 7], s[off + 8]],
    }
}

/// The strip stored at byte offset `off`.
pub open spec fn spec_strip(s: Seq<u8>, off: int) -> Strip {
    Strip {
        flags: StripFlags(s[off + 18]),
        index_start: extend_signed(le_i32(s, off + 4)) as usize,
        index_count: range_len(le_i32(s, off + 4), le_i32(s, off)) as usize,
        vertex_start: extend_signed(le_i32(s, off + 12)) as usize,
        vertex_count: range_len(le_i32(s, off + 12), le_i32(s, off + 8)) as usize,
    }
}

/// Whether `g` is the strip group stored at byte offset `off`.
pub open spec fn strip_group_matches(g: StripGroup, s: Seq<u8>, off: int) -> bool {
    &&& g.flags == StripGroupFlags(s[off + 24])
    &&& table_matches(
        g.vertices@,
        s,
        off,
        extend_signed(le_i32(s, off + 4)),
        VTX_VERTEX_SIZE as int,
        clamp_count(le_i32(s, off)),
        |v: Vertex, s2: Seq<u8>, o: int| v == spec_vtx_vertex(s2, o),
    )
    &&& table_matches(
        g.strips@,
        s,
        off,
        extend_signed(le_i32(s, off + 20)),
        STRIP_SIZE as int,
        clamp_count(le_i32(s, off + 16)),
        |v: Strip, s2: Seq<u8>, o: int| v == spec_strip(s2, o),
    )
    &&& table_matches(
        g.indices@,
        s,
        off,
        extend_signed(le_i32(s, off + 12)),
        2,
        clamp_count(le_i32(s, off + 8)),
        |v: u16, s2: Seq<u8>, o: int| v == le16(s2, o),
    )
}

/// Whether `m` is the mesh stored at byte offset `off`.
pub open spec fn mesh_matches(m: Mesh, s: Seq<u8>, off: int) -> bool {
    &&& m.flags == MeshFlags(s[off + 8])
    &&& table_matches(
        m.strip_groups@,
        s,
        off,
        extend_signed(le_i32(s, off + 4)),
        STRIP_GROUP_SIZE as int,
        clamp_count(le_i32(s, off)),
        |v: StripGroup, s2: Seq<u8>, o: int| strip_group_matches(v, s2, o),
    )
}

/// Whether `l` is the detail level stored at byte offset `off`.
pub open spec fn lod_matches(l: ModelLod, s: Seq<u8>, off: int) -> bool {
    &&& l.switch_point == le32(s, off + 8)
    &&& table_matches(
        l.meshes@,
        s,
        off,
        extend_signed(le_i32(s, off + 4)),
        VTX_MESH_SIZE as int,
        clamp_count(le_i32(s, off)),
        |v: Mesh, s2: Seq<u8>, o: int| mesh_matches(v, s2, o),
    )
}

/// Whether `m` is the model stored at byte offset `off`.
pub open spec fn model_matches(m: Model, s: Seq<u8>, off: int) -> bool {
    table_matches(
        m.lods@,
        s,
        off,
        extend_signed(le_i32(s, off + 4)),
        VTX_LOD_SIZE as int,
        clamp_count(le_i32(s, off)),
        |v: ModelLod, s2: Seq<u8>, o: int| lod_matches(v, s2, o),
    )
}

/// Whether `b` is the body part stored at byte offset `off`.
pub open spec fn body_part_matches(b: BodyPart, s: Seq<u8>, off: int) -> bool {
    table_matches(
        b.models@,
        s,
        off,
        extend_signed(le_i32(s, off + 4)),
        VTX_MODEL_SIZE as int,
        clamp_count(le_i32(s, off)),
        |v: Model, s2: Seq<u8>, o: int| model_matches(v, s2, o),
    )
}

/// Whether `h` is the file header stored at the start of `s`.
pub open spec fn vtx_header_matches(h: VtxHeader, s: Seq<u8>) -> bool {
    &&& h.version == le_i32(s, 0)
    &&& h.vertex_cache_size == le_i32(s, 4)
    &&& h.max_bones_per_strip == le16(s, 8)
    &&& h.max_bones_per_triangle == le16(s, 10)
    &&& h.max_bones_per_vertex == le_i32(s, 12)
    &&& h.checksum == [s[16], s[17], s[18], s[19]]
    &&& h.lod_count == le_i32(s, 20)
    &&& h.material_replacement_list == le_i32(s, 24)
    &&& h.body_part_count == le_i32(s, 28)
    &&& h.body_part_offset == le_i32(s, 32)
}

/// Whether `v` is the whole file stored in `s`.
pub open spec fn vtx_matches(v: Vtx, s: Seq<u8>) -> bool {
    &&& vtx_header_matches(v.header, s)
    &&& table_matches(
        v.body_parts@,
        s,
        0,
        extend_signed(le_i32(s, 32)),
        VTX_BODY_PART_SIZE as int,
        clamp_count(le_i32(s, 28)),
        |b: BodyPart, s2: Seq<u8>, o: int| body_part_matches(b, s2, o),
    )
}

// ------------------------------------------------------------------
// Wire layout: faults.
// ------------------------------------------------------------------

/// The fault of reading the indirection vertex at `off`, if any.
pub open spec fn vtx_vertex_fault(s: Seq<u8>, off: int) -> Option<ModelError> {
    if s.len() - off < VTX_VERTEX_SIZE {
        Some(ModelError::Eof(VTX_VERTEX_SIZE))
    } else {
        None
    }
}

/// The fault of reading the strip record at `off`, if any.
pub open spec fn strip_fault(s: Seq<u8>, off: int) -> Option<ModelError> {
    if s.len() - off < STRIP_SIZE {
        Some(ModelError::Eof(STRIP_SIZE))
    } else {
        None
    }
}

/// The fault of reading the 16-bit index at `off`, if any.
pub open spec fn vtx_index_fault(s: Seq<u8>, off: int) -> Option<ModelError> {
    if s.len() - off < 2 {
        Some(ModelError::Eof(2))
    } else {
        None
    }
}

/// The fault of reading the strip group at `off` with its three tables, if
/// any, in the order of the reads: vertices, strips, indices.
pub open spec fn strip_group_fault(s: Seq<u8>, off: int) -> Option<ModelError> {
    if s.len() - off < STRIP_GROUP_SIZE {
        Some(ModelError::Eof(STRIP_GROUP_SIZE))
    } else {
        let vf = table_fault(
            s,
            off,
            extend_signed(le_i32(s, off + 4)),
            VTX_VERTEX_SIZE as int,
            clamp_count(le_i32(s, off)),
            0,
            "vertex",
            |s2: Seq<u8>, o: int| vtx_vertex_fault(s2, o),
        );
        let sf = table_fault(
            s,
            off,
            extend_signed(le_i32(s, off + 20)),
            STRIP_SIZE as int,
            clamp_count(le_i32(s, off + 16)),
            0,
            "strip",
            |s2: Seq<u8>, o: int| strip_fault(s2, o),
        );
        let inf = table_fault(
            s,
            off,
            extend_signed(le_i32(s, off + 12)),
            2,
            clamp_count(le_i32(s, off + 8)),
            0,
            "index",
            |s2: Seq<u8>, o: int| vtx_index_fault(s2, o),
        );
        if vf is Some {
            vf
        } else if sf is Some {
            sf
        } else if inf is Some {
            inf
        } else {
            None
        }
    }
}

/// The fault of reading the mesh at `off` and its strip groups, if any.
pub open spec fn mesh_fault(s: Seq<u8>, off: int) -> Option<ModelError> {
    if s.len() - off < VTX_MESH_SIZE {
        Some(ModelError::Eof(VTX_MESH_SIZE))
    } else {
        table_fault(
            s,
            off,
            extend_signed(le_i32(s, off + 4)),
            STRIP_GROUP_SIZE as int,
            clamp_count(le_i32(s, off)),
            0,
            "strip_group",
            |s2: Seq<u8>, o: int| strip_group_fault(s2, o),
        )
    }
}

/// The fault of reading the detail level at `off` and its meshes, if any.
pub open spec fn lod_fault(s: Seq<u8>, off: int) -> Option<ModelError> {
    if s.len() - off < VTX_LOD_SIZE {
        Some(ModelError::Eof(VTX_LOD_SIZE))
    } else {
        table_fault(
            s,
            off,
            extend_signed(le_i32(s, off + 4)),
            VTX_MESH_SIZE as int,
            clamp_count(le_i32(s, off)),
            0,
            "mesh",
            |s2: Seq<u8>, o: int| mesh_fault(s2, o),
        )
    }
}

/// The fault of reading the model at `off` and its detail levels, if any.
pub open spec fn model_fault(s: Seq<u8>, off: int) -> Option<ModelError> {
    if s.len() - off < VTX_MODEL_SIZE {
        Some(ModelError::Eof(VTX_MODEL_SIZE))
    } else {
        table_fault(
            s,
            off,
            extend_signed(le_i32(s, off + 4)),
            VTX_LOD_SIZE as int,
            clamp_count(le_i32(s, off)),
            0,
            "model_lod",
            |s2: Seq<u8>, o: int| lod_fault(s2, o),
        )
    }
}

/// The fault of reading the body part at `off` and its models, if any.
pub open spec fn body_part_fault(s: Seq<u8>, off: int) -> Option<ModelError> {
    if s.len() - off < VTX_BODY_PART_SIZE {
        Some(ModelError::Eof(VTX_BODY_PART_SIZE))
    } else {
        table_fault(
            s,
            off,
            extend_signed(le_i32(s, off + 4)),
            VTX_MODEL_SIZE as int,
            clamp_count(le_i32(s, off)),
            0,
            "model",
            |s2: Seq<u8>, o: int| model_fault(s2, o),
        )
    }
}

/// The fault of parsing a whole VTX file, if any.
pub open spec fn vtx_fault(s: Seq<u8>) -> Option<ModelError> {
    if s.len() < VTX_HEADER_SIZE {
        Some(ModelError::Eof(VTX_HEADER_SIZE))
    } else {
        table_fault(
            s,
            0,
            extend_signed(le_i32(s, 32)),
            VTX_BODY_PART_SIZE as int,
            clamp_count(le_i32(s, 28)),
            0,
            "body_part",
            |s2: Seq<u8>, o: int| body_part_fault(s2, o),
        )
    }
}

// ------------------------------------------------------------------
// Execution.
// ------------------------------------------------------------------

/// Read the indirection vertex at `off`.
fn read_vtx_vertex(data: &[u8], off: usize) -> (r: Result<Vertex, ModelError>)
    requires
        off <= data@.len(),
    ensures
        match r {
            Ok(v) => vtx_vertex_fault(data@, off as int) is None && v == spec_vtx_vertex(
                data@,
                off as int,
            ),
            Err(e) => vtx_vertex_fault(data@, off as int) == Some(e),
        },
{
    let len = data.len();
    if len - off < VTX_VERTEX_SIZE {
        return Err(ModelError::Eof(VTX_VERTEX_SIZE));
    }
    Ok(
        Vertex {
            bone_weight_indexes: [get_u8(data, off), get_u8(data, off + 1), get_u8(data, off + 2)],
            bone_count: get_u8(data, off + 3),
            original_mesh_vertex_id: get_u16(data, off + 4),
            bone_id: [get_u8(data, off + 6), get_u8(data, off + 7), get_u8(data, off + 8)],
        },
    )
}

/// Read the strip record at `off`.
fn read_strip(data: &[u8], off: usize) -> (r: Result<Strip, ModelError>)
    requires
        off <= data@.len(),
    ensures
        match r {
            Ok(v) => strip_fault(data@, off as int) is None && v == spec_strip(data@, off as int),
            Err(e) => strip_fault(data@, off as int) == Some(e),
        },
{
    let len = data.len();
    if len - off < STRIP_SIZE {
        return Err(ModelError::Eof(STRIP_SIZE));
    }
    let index_range = range_of(get_i32(data, off + 4), get_i32(data, off));
    let vertex_range = range_of(get_i32(data, off + 12), get_i32(data, off + 8));
    Ok(
        Strip {
            flags: StripFlags(get_u8(data, off + 18)),
            index_start: index_range.base,
            index_count: index_range.count,
            vertex_start: vertex_range.base,
            vertex_count: vertex_range.count,
        },
    )
}

/// Read the strip group at `off`: its vertex, strip and index tables.
#[verifier::loop_isolation(false)]
fn read_strip_group(data: &[u8], off: usize) -> (r: Result<StripGroup, ModelError>)
    requires
        off <= data@.len(),
    ensures
        match r {
            Ok(v) => strip_group_fault(data@, off as int) is None && strip_group_matches(
                v,
                data@,
                off as int,
            ),
            Err(e) => strip_group_fault(data@, off as int) == Some(e),
        },
{
    let len = data.len();
    if len - off < STRIP_GROUP_SIZE {
        return Err(ModelError::Eof(STRIP_GROUP_SIZE));
    }
    let slice_len = len - off;
    let h = StripGroupHeader {
        vertex_count: get_i32(data, off),
        vertex_offset: get_i32(data, off + 4),
        index_count: get_i32(data, off + 8),
        index_offset: get_i32(data, off + 12),
        strip_count: get_i32(data, off + 16),
        strip_offset: get_i32(data, off + 20),
        flags: StripGroupFlags(get_u8(data, off + 24)),
    };

    let vr = h.vertex_indexes();
    let mut vertices: Vec<Vertex> = Vec::new();
    let ghost vchild = |s2: Seq<u8>, o: int| vtx_vertex_fault(s2, o);
    for i in 0..vr.len()
        invariant
            vertices@.len() == i,
            forall|j: int|
                0 <= j < i ==> #[trigger] vertices@[j] == spec_vtx_vertex(
                    data@,
                    off + sat_off(vr.base as int, j, VTX_VERTEX_SIZE as int),
                ),
            table_fault(
                data@,
                off as int,
                vr.base as int,
                VTX_VERTEX_SIZE as int,
                vr.count as int,
                i as int,
                "vertex",
                vchild,
            ) == table_fault(
                data@,
                off as int,
                vr.base as int,
                VTX_VERTEX_SIZE as int,
                vr.count as int,
                0,
                "vertex",
                vchild,
            ),
    {
        let rel = vr.nth(i);
        if rel > slice_len {
            return Err(ModelError::OutOfBounds { data: "vertex", offset: rel });
        }
        match read_vtx_vertex(data, off + rel) {
            Ok(v) => vertices.push(v),
            Err(e) => {
                return Err(e);
            },
        }
    }

    let sr = h.strip_indexes();
    let mut strips: Vec<Strip> = Vec::new();
    let ghost schild = |s2: Seq<u8>, o: int| strip_fault(s2, o);
    for i in 0..sr.len()
        invariant
            strips@.len() == i,
            forall|j: int|
                0 <= j < i ==> #[trigger] strips@[j] == spec_strip(
                    data@,
                    off + sat_off(sr.base as int, j, STRIP_SIZE as int),
                ),
            table_fault(
                data@,
                off as int,
                sr.base as int,
                STRIP_SIZE as int,
                sr.count as int,
                i as int,
                "strip",
                schild,
            ) == table_fault(
                data@,
                off as int,
                sr.base as int,
                STRIP_SIZE as int,
                sr.count as int,
                0,
                "strip",
                schild,
            ),
    {
        let rel = sr.nth(i);
        if rel > slice_len {
            return Err(ModelError::OutOfBounds { data: "strip", offset: rel });
        }
        match read_strip(data, off + rel) {
            Ok(v) => strips.push(v),
            Err(e) => {
                return Err(e);
            },
        }
    }

    let ir = h.index_indexes();
    let mut indices: Vec<u16> = Vec::new();
    let ghost ichild = |s2: Seq<u8>, o: int| vtx_index_fault(s2, o);
    for i in 0..ir.len()
        invariant
            indices@.len() == i,
            forall|j: int|
                0 <= j < i ==> #[trigger] indices@[j] == le16(
                    data@,
                    off + sat_off(ir.base as int, j, 2),
                ),
            table_fault(
                data@,
                off as int,
                ir.base as int,
                2,
                ir.count as int,
                i as int,
                "index",
                ichild,
            ) == table_fault(
                data@,
                off as int,
                ir.base as int,
                2,
                ir.count as int,
                0,
                "index",
                ichild,
            ),
    {
        let rel = ir.nth(i);
        if rel > slice_len {
            return Err(ModelError::OutOfBounds { data: "index", offset: rel });
        }
        if len - (off + rel) < 2 {
            return Err(ModelError::Eof(2));
        }
        indices.push(get_u16(data, off + rel));
    }

    Ok(StripGroup { indices, vertices, strips, flags: h.flags })
}

/// Read the mesh at `off` and its strip groups.
#[verifier::loop_isolation(false)]
fn read_mesh(data: &[u8], off: usize) -> (r: Result<Mesh, ModelError>)
    requires
        off <= data@.len(),
    ensures
        match r {
            Ok(v) => mesh_fault(data@, off as int) is None && mesh_matches(v, data@, off as int),
            Err(e) => mesh_fault(data@, off as int) == Some(e),
        },
{
    let len = data.len();
    if len - off < VTX_MESH_SIZE {
        return Err(ModelError::Eof(VTX_MESH_SIZE));
    }
    let slice_len = len - off;
    let h = MeshHeader {
        strip_group_count: get_i32(data, off),
        strip_group_offset: get_i32(data, off + 4),
        flags: MeshFlags(get_u8(data, off + 8)),
    };
    let gr = h.strip_group_indexes();
    let mut strip_groups: Vec<StripGroup> = Vec::new();
    let ghost child = |s2: Seq<u8>, o: int| strip_group_fault(s2, o);
    for i in 0..gr.len()
        invariant
            strip_groups@.len() == i,
            forall|j: int|
                0 <= j < i ==> #[trigger] strip_group_matches(
                    strip_groups@[j],
                    data@,
                    off + sat_off(gr.base as int, j, STRIP_GROUP_SIZE as int),
                ),
            table_fault(
                data@,
                off as int,
                gr.base as int,
                STRIP_GROUP_SIZE as int,
                gr.count as int,
                i as int,
                "strip_group",
                child,
            ) == table_fault(
                data@,
                off as int,
                gr.base as int,
                STRIP_GROUP_SIZE as int,
                gr.count as int,
                0,
                "strip_group",
                child,
            ),
    {
        let rel = gr.nth(i);
        if rel > slice_len {
            return Err(ModelError::OutOfBounds { data: "strip_group", offset: rel });
        }
        match read_strip_group(data, off + rel) {
            Ok(v) => strip_groups.push(v),
            Err(e) => {
                return Err(e);
            },
        }
    }
    Ok(Mesh { strip_groups, flags: h.flags })
}

/// Read the detail level at `off` and its meshes.
#[verifier::loop_isolation(false)]
fn read_lod(data: &[u8], off: usize) -> (r: Result<ModelLod, ModelError>)
    requires
        off <= data@.len(),
    ensures
        match r {
            Ok(v) => lod_fault(data@, off as int) is None && lod_matches(v, data@, off as int),
            Err(e) => lod_fault(data@, off as int) == Some(e),
        },
{
    let len = data.len();
    if len - off < VTX_LOD_SIZE {
        return Err(ModelError::Eof(VTX_LOD_SIZE));
    }
    let slice_len = len - off;
    let h = ModelLodHeader {
        mesh_count: get_i32(data, off),
        mesh_offset: get_i32(data, off + 4),
        switch_point: crate::reader::get_u32(data, off + 8),
    };
    let mr = h.mesh_indexes();
    let mut meshes: Vec<Mesh> = Vec::new();
    let ghost child = |s2: Seq<u8>, o: int| mesh_fault(s2, o);
    for i in 0..mr.len()
        invariant
            meshes@.len() == i,
            forall|j: int|
                0 <= j < i ==> #[trigger] mesh_matches(
                    meshes@[j],
                    data@,
                    off + sat_off(mr.base as int, j, VTX_MESH_SIZE as int),
                ),
            table_fault(
                data@,
                off as int,
                mr.base as int,
                VTX_MESH_SIZE as int,
                mr.count as int,
                i as int,
                "mesh",
                child,
            ) == table_fault(
                data@,
                off as int,
                mr.base as int,
                VTX_MESH_SIZE as int,
                mr.count as int,
                0,
                "mesh",
                child,
            ),
    {
        let rel = mr.nth(i);
        if rel > slice_len {
            return Err(ModelError::OutOfBounds { data: "mesh", offset: rel });
        }
        match read_mesh(data, off + rel) {
            Ok(v) => meshes.push(v),
            Err(e) => {
                return Err(e);
            },
        }
    }
    Ok(ModelLod { meshes, switch_point: h.switch_point })
}

/// Read the model at `off` and its detail levels.
#[verifier::loop_isolation(false)]
fn read_model(data: &[u8], off: usize) -> (r: Result<Model, ModelError>)
    requires
        off <= data@.len(),
    ensures
        match r {
            Ok(v) => model_fault(data@, off as int) is None && model_matches(v, data@, off as int),
            Err(e) => model_fault(data@, off as int) == Some(e),
        },
{
    let len = data.len();
    if len - off < VTX_MODEL_SIZE {
        return Err(ModelError::Eof(VTX_MODEL_SIZE));
    }
    let slice_len = len - off;
    let h = ModelHeader { lod_count: get_i32(data, off), lod_offset: get_i32(data, off + 4) };
    let lr = h.lod_indexes();
    let mut lods: Vec<ModelLod> = Vec::new();
    let ghost child = |s2: Seq<u8>, o: int| lod_fault(s2, o);
    for i in 0..lr.len()
        invariant
            lods@.len() == i,
            forall|j: int|
                0 <= j < i ==> #[trigger] lod_matches(
                    lods@[j],
                    data@,
                    off + sat_off(lr.base as int, j, VTX_LOD_SIZE as int),
                ),
            table_fault(
                data@,
                off as int,
                lr.base as int,
                VTX_LOD_SIZE as int,
                lr.count as int,
                i as int,
                "model_lod",
                child,
            ) == table_fault(
                data@,
                off as int,
                lr.base as int,
                VTX_LOD_SIZE as int,
                lr.count as int,
                0,
                "model_lod",
                child,
            ),
    {
        let rel = lr.nth(i);
        if rel > slice_len {
            return Err(ModelError::OutOfBounds { data: "model_lod", offset: rel });
        }
        match read_lod(data, off + rel) {
            Ok(v) => lods.push(v),
            Err(e) => {
                return Err(e);
            },
        }
    }
    Ok(Model { lods })
}

/// Read the body part at `off` and its models.
#[verifier::loop_isolation(false)]
fn read_body_part(data: &[u8], off: usize) -> (r: Result<BodyPart, ModelError>)
    requires
        off <= data@.len(),
    ensures
        match r {
            Ok(v) => body_part_fault(data@, off as int) is None && body_part_matches(
                v,
                data@,
                off as int,
            ),
            Err(e) => body_part_fault(data@, off as int) == Some(e),
        },
{
    let len = data.len();
    if len - off < VTX_BODY_PART_SIZE {
        return Err(ModelError::Eof(VTX_BODY_PART_SIZE));
    }
    let slice_len = len - off;
    let h = BodyPartHeader { model_count: get_i32(data, off), model_offset: get_i32(data, off + 4) };
    let mr = h.model_indexes();
    let mut models: Vec<Model> = Vec::new();
    let ghost child = |s2: Seq<u8>, o: int| model_fault(s2, o);
    for i in 0..mr.len()
        invariant
            models@.len() == i,
            forall|j: int|
                0 <= j < i ==> #[trigger] model_matches(
                    models@[j],
                    data@,
                    off + sat_off(mr.base as int, j, VTX_MODEL_SIZE as int),
                ),
            table_fault(
                data@,
                off as int,
                mr.base as int,
                VTX_MODEL_SIZE as int,
                mr.count as int,
                i as int,
                "model",
                child,
            ) == table_fault(
                data@,
                off as int,
                mr.base as int,
                VTX_MODEL_SIZE as int,
                mr.count as int,
                0,
                "model",
                child,
            ),
    {
        let rel = mr.nth(i);
        if rel > slice_len {
            return Err(ModelError::OutOfBounds { data: "model", offset: rel });
        }
        match read_model(data, off + rel) {
            Ok(v) => models.push(v),
            Err(e) => {
                return Err(e);
            },
        }
    }
    Ok(BodyPart { models })
}

impl Vtx {
    /// Parse a whole triangle-strip index file: the header and every body
    /// part, model, detail level, mesh and strip group it names. Every
    /// fault is the named error, never a panic. Strip ranges and counts
    /// are carried exactly as the wire holds them (the error model names
    /// no fault for a strip that misstates them);
    /// [`StripGroup::strips_well_formed`] decides that invariant for
    /// callers that demand it.
    #[verifier::loop_isolation(false)]
    #[verifier::rlimit(60)]
    pub fn read(data: &[u8]) -> (r: Result<Vtx, ModelError>)
        ensures
            match r {
                Ok(v) => vtx_fault(data@) is None && vtx_matches(v, data@),
                Err(e) => vtx_fault(data@) == Some(e),
            },
    {
        let len = data.len();
        if len < VTX_HEADER_SIZE {
            return Err(ModelError::Eof(VTX_HEADER_SIZE));
        }
        let header = VtxHeader {
            version: get_i32(data, 0),
            vertex_cache_size: get_i32(data, 4),
            max_bones_per_strip: get_u16(data, 8),
            max_bones_per_triangle: get_u16(data, 10),
            max_bones_per_vertex: get_i32(data, 12),
            checksum: [get_u8(data, 16), get_u8(data, 17), get_u8(data, 18), get_u8(data, 19)],
            lod_count: get_i32(data, 20),
            material_replacement_list: get_i32(data, 24),
            body_part_count: get_i32(data, 28),
            body_part_offset: get_i32(data, 32),
        };
        let br = header.body_indexes();
        let mut body_parts: Vec<BodyPart> = Vec::new();
        let ghost child = |s2: Seq<u8>, o: int| body_part_fault(s2, o);
        for i in 0..br.len()
            invariant
                body_parts@.len() == i,
                forall|j: int|
                    0 <= j < i ==> #[trigger] body_part_matches(
                        body_parts@[j],
                        data@,
                        sat_off(br.base as int, j, VTX_BODY_PART_SIZE as int),
                    ),
                table_fault(
                    data@,
                    0,
                    br.base as int,
                    VTX_BODY_PART_SIZE as int,
                    br.count as int,
                    i as int,
                    "body_part",
                    child,
                ) == table_fault(
                    data@,
                    0,
                    br.base as int,
                    VTX_BODY_PART_SIZE as int,
                    br.count as int,
                    0,
                    "body_part",
                    child,
                ),
        {
            let rel = br.nth(i);
            if rel > len {
                return Err(ModelError::OutOfBounds { data: "body_part", offset: rel });
            }
            match read_body_part(data, rel) {
                Ok(v) => body_parts.push(v),
                Err(e) => {
                    return Err(e);
                },
            }
        }
        Ok(Vtx { header, body_parts })
    }
}

// ------------------------------------------------------------------
// Strip-to-triangle expansion.
// ------------------------------------------------------------------

impl Strip {
    /// Whether the strip's stored ranges fit the address space; every
    /// parsed strip does.
    pub open spec fn wf(self) -> bool {
        &&& self.index_start + self.index_count <= usize::MAX
        &&& self.vertex_start + self.vertex_count <= usize::MAX
    }

    /// The strip's sub-range of the group's vertex array.
    pub fn vertices(&self) -> (r: IndexRange)
        ensures
            r.base == self.vertex_start,
            r.count == self.vertex_count,
            r.stride == 1,
    {
        IndexRange { base: self.vertex_start, count: self.vertex_count, stride: 1 }
    }

    /// The triangle expansion of the strip's index range, three generated
    /// indices per triangle: a triangle strip slides a three-index window
    /// with alternating winding, a triangle list consumes whole triples.
    #[verifier::loop_isolation(false)]
    pub fn indices(&self) -> (r: Vec<usize>)
        requires
            self.wf(),
        ensures
            r@.len() == strip_index_len(*self),
            forall|k: int| 0 <= k < r@.len() ==> r@[k] == strip_index_at(*self, k),
    {
        let mut out: Vec<usize> = Vec::new();
        if self.tri_strip_flag() {
            if self.index_count < 2 {
                return out;
            }
            let triangles = self.index_count - 2;
            for t in 0..triangles
                invariant
                    out@.len() == 3 * t,
                    forall|k: int| 0 <= k < out@.len() ==> out@[k] == strip_index_at(*self, k),
            {
                let base = self.index_start + t;
                if t % 2 == 0 {
                    out.push(base);
                    out.push(base + 1);
                    out.push(base + 2);
                } else {
                    out.push(base + 1);
                    out.push(base);
                    out.push(base + 2);
                }
                proof {
                    assert forall|k: int| 0 <= k < out@.len() implies out@[k] == strip_index_at(
                        *self,
                        k,
                    ) by {
                        if k < 3 * t {
                        } else {
                            assert(k / 3 == t && k % 3 == k - 3 * t) by (nonlinear_arith)
                                requires
                                    3 * t <= k < 3 * t + 3,
                                    t >= 0,
                            ;
                        }
                    }
                }
            }
        } else {
            let whole = self.index_count - self.index_count % 3;
            for k in 0..whole
                invariant
                    out@.len() == k,
                    forall|j: int| 0 <= j < out@.len() ==> out@[j] == strip_index_at(*self, j),
            {
                out.push(self.index_start + k);
            }
        }
        out
    }

    /// Whether the strip is expanded as a triangle strip.
    fn tri_strip_flag(&self) -> (r: bool)
        ensures
            r == is_tri_strip(self.flags),
    {
        self.flags.tri_strip()
    }
}

/// How many indices the triangle expansion of a strip yields: three per
/// sliding window position for a strip, three per whole triple for a list.
pub open spec fn strip_index_len(st: Strip) -> int {
    if is_tri_strip(st.flags) {
        if st.index_count >= 2 {
            3 * (st.index_count - 2)
        } else {
            0
        }
    } else {
        st.index_count - st.index_count % 3
    }
}

/// The `k`-th generated index of a strip's triangle expansion. For a
/// triangle strip, triangle `t` is `(t, t+1, t+2)` when `t` is even and
/// `(t+1, t, t+2)` when odd — the winding flip; for a list the indices
/// pass through.
pub open spec fn strip_index_at(st: Strip, k: int) -> int {
    if is_tri_strip(st.flags) {
        let t = k / 3;
        let j = k % 3;
        if t % 2 == 0 {
            st.index_start + t + j
        } else if j == 0 {
            st.index_start + t + 1
        } else if j == 1 {
            st.index_start + t
        } else {
            st.index_start + t + 2
        }
    } else {
        st.index_start + k
    }
}


// ------------------------------------------------------------------
// The data-model invariant of strips.
// ------------------------------------------------------------------

/// Whether a strip's index and vertex sub-ranges lie inside its group's
/// arrays.
pub open spec fn strip_in_bounds(g: StripGroup, st: Strip) -> bool {
    &&& st.index_start + st.index_count <= g.indices@.len()
    &&& st.vertex_start + st.vertex_count <= g.vertices@.len()
}

/// The distinct index values a strip's index range holds — each one names
/// a vertex of the group.
pub open spec fn strip_distinct_indices(g: StripGroup, st: Strip) -> Set<u16> {
    g.indices@.subrange(
        st.index_start as int,
        st.index_start + st.index_count,
    ).to_set()
}

/// The invariant the data model states of one strip: its ranges lie
/// inside the group's arrays, and its vertex count is the number of
/// distinct vertices its index range names. The wire carries these fields
/// unchecked and the error model names no fault for them, so the parser
/// accepts them verbatim; [`StripGroup::strips_well_formed`] decides the
/// invariant for callers that demand it.
pub open spec fn strip_invariant(g: StripGroup, st: Strip) -> bool {
    &&& strip_in_bounds(g, st)
    &&& st.vertex_count == strip_distinct_indices(g, st).len()
}

/// Appending one element to a sequence inserts it into the sequence's
/// set of values.
proof fn lemma_to_set_push(s: Seq<u16>, t: Seq<u16>)
    requires
        t.len() == s.len() + 1,
        t.drop_last() == s,
    ensures
        t.to_set() == s.to_set().insert(t.last()),
        t.to_set().len() == s.to_set().len() + (if s.to_set().contains(t.last()) {
            0int
        } else {
            1int
        }),
{
    broadcast use vstd::set::group_set_axioms;
    broadcast use vstd::seq_lib::seq_to_set_is_finite;

    assert forall|a: u16| #[trigger] t.to_set().contains(a) implies s.to_set().insert(
        t.last(),
    ).contains(a) by {
        let i = choose|i: int| 0 <= i < t.len() && t[i] == a;
        if i < s.len() {
            assert(s[i] == a);
        }
    }
    assert forall|a: u16| #[trigger] s.to_set().insert(t.last()).contains(a) implies t.to_set()
        .contains(a) by {
        if s.to_set().contains(a) {
            let i = choose|i: int| 0 <= i < s.len() && s[i] == a;
            assert(t[i] == a);
        } else {
            assert(t[t.len() - 1] == a);
        }
    }
    assert(t.to_set() =~= s.to_set().insert(t.last()));
}

/// Count the distinct 16-bit values in a range of an index array.
#[verifier::loop_isolation(false)]
fn distinct_index_count(indices: &Vec<u16>, start: usize, count: usize) -> (r: usize)
    requires
        start + count <= indices@.len(),
    ensures
        r as int == indices@.subrange(start as int, start + count).to_set().len(),
{
    let len = indices.len();
    let mut seen: Vec<bool> = Vec::new();
    while seen.len() < 0x1_0000
        invariant
            seen@.len() <= 0x1_0000,
            forall|v: int| 0 <= v < seen@.len() ==> !seen@[v],
        decreases 0x1_0000 - seen@.len(),
    {
        seen.push(false);
    }
    let mut n: usize = 0;
    proof {
        broadcast use vstd::set::group_set_axioms;

        assert(indices@.subrange(start as int, start as int).to_set() =~= Set::<u16>::empty());
    }
    for j in 0..count
        invariant
            seen@.len() == 0x1_0000,
            n as int == indices@.subrange(start as int, start + j).to_set().len(),
            n <= j,
            forall|v: int|
                0 <= v < 0x1_0000 ==> (#[trigger] seen@[v] <==> indices@.subrange(
                    start as int,
                    start + j,
                ).to_set().contains(v as u16)),
    {
        let v = indices[start + j];
        proof {
            let pre = indices@.subrange(start as int, start + j);
            let post = indices@.subrange(start as int, start + j + 1);
            assert(post.drop_last() =~= pre);
            assert(post.last() == indices@[start + j]);
            lemma_to_set_push(pre, post);
        }
        if !seen[v as usize] {
            seen.set(v as usize, true);
            n = n + 1;
        }
    }
    n
}

impl StripGroup {
    /// Decide the data-model invariant for every strip of the group.
    #[verifier::loop_isolation(false)]
    pub fn strips_well_formed(&self) -> (r: bool)
        ensures
            r <==> forall|si: int|
                0 <= si < self.strips@.len() ==> strip_invariant(
                    *self,
                    #[trigger] self.strips@[si],
                ),
    {
        let n = self.strips.len();
        for si in 0..n
            invariant
                forall|sj: int|
                    0 <= sj < si ==> strip_invariant(*self, #[trigger] self.strips@[sj]),
        {
            let st = self.strips[si];
            let in_bounds = st.index_count <= self.indices.len() && st.index_start
                <= self.indices.len() - st.index_count && st.vertex_count <= self.vertices.len()
                && st.vertex_start <= self.vertices.len() - st.vertex_count;
            if !in_bounds {
                return false;
            }
            let distinct = distinct_index_count(&self.indices, st.index_start, st.index_count);
            if distinct != st.vertex_count {
                return false;
            }
        }
        true
    }
}

} // verus!
