//! The vertex-data (`.vvd`) reader: the raw per-LOD vertex and tangent
//! arrays and the optional fix-up table that reorders them.

use vstd::prelude::*;

use crate::error::ModelError;
use crate::math::{get_tangent, get_vector, spec_tangent, spec_vector, Tangent, Vector};
use crate::reader::{
    extend_signed, extend_to_usize, get_i32, get_u32, get_u8, index_range, le32, le_i32,
    read_fault, records_fault, records_fault_from, sat_add32, sat_off, saturating_add32,
    IndexRange,
};

verus! {

/// The byte size of the VVD file header.
pub const VVD_HEADER_SIZE: usize = 64;

/// The byte size of one vertex record.
pub const VERTEX_SIZE: usize = 48;

/// The byte size of one tangent record.
pub const TANGENT_SIZE: usize = 16;

/// The byte size of one fix-up record.
pub const FIXUP_SIZE: usize = 12;

// ------------------------------------------------------------------
// Records.
// ------------------------------------------------------------------

/// The VVD file header.
#[derive(Debug, Clone, Copy, PartialEq, Eq)]
pub struct VvdHeader {
    pub id: i32,
    pub version: i32,
    pub checksum: [u8; 4],
    pub lod_count: i32,
    pub lod_vertex_count: [i32; 8],
    pub fixup_count: i32,
    pub fixup_index: i32,
    pub vertex_index: i32,
    pub tangent_index: i32,
}

/// One fix-up: copy `vertex_count` source vertices starting at
/// `source_vertex_id` to the end of the output stream.
#[derive(Debug, Clone, Copy, PartialEq, Eq, Structural)]
pub struct VertexFileFixup {
    pub lod: i32,
    pub source_vertex_id: i32,
    pub vertex_count: i32,
}

/// The bone weights of one vertex. Only the first
/// `min(bone_count, 2)` weight/bone pairs are semantically valid.
#[derive(Debug, Clone, Copy, PartialEq, Eq)]
pub struct BoneWeights {
    /// IEEE-754 single-precision bit patterns.
    pub weight: [u32; 3],
    pub bone: [u8; 3],
    pub bone_count: u8,
}

/// One weight/bone pair of a vertex.
#[derive(Debug, Clone, Copy, PartialEq, Eq, Structural)]
pub struct BoneWeight {
    pub bone_id: u8,
    /// An IEEE-754 single-precision bit pattern.
    pub weight: u32,
}

/// One vertex of the raw vertex array.
#[derive(Debug, Clone, Copy, PartialEq, Eq)]
pub struct Vertex {
    pub bone_weights: BoneWeights,
    pub position: Vector,
    pub normal: Vector,
    /// Two IEEE-754 single-precision bit patterns (u, v).
    pub texture_coordinates: [u32; 2],
}

impl BoneWeights {
    /// The semantically valid weight/bone pairs: the first
    /// `min(bone_count, 2)`.
    pub fn weights(&self) -> (r: Vec<BoneWeight>)
        ensures
            r@.len() == spec_weight_count(*self),
            forall|i: int|
                0 <= i < r@.len() ==> r@[i] == (BoneWeight {
                    bone_id: self.bone[i],
                    weight: self.weight[i],
                }),
    {
        let n: usize = if self.bone_count >= 2 {
            2
        } else {
            self.bone_count as usize
        };
        let mut out: Vec<BoneWeight> = Vec::new();
        for i in 0..n
            invariant
                n <= 2,
                out@.len() == i,
                forall|j: int|
                    0 <= j < i ==> out@[j] == (BoneWeight {
                        bone_id: self.bone[j],
                        weight: self.weight[j],
                    }),
        {
            out.push(BoneWeight { bone_id: self.bone[i], weight: self.weight[i] });
        }
        out
    }
}

/// How many weight/bone pairs of a vertex are semantically valid.
pub open spec fn spec_weight_count(w: BoneWeights) -> int {
    if w.bone_count >= 2 {
        2
    } else {
        w.bone_count as int
    }
}

// ------------------------------------------------------------------
// Wire layout.
// ------------------------------------------------------------------

/// The fix-up record stored at byte offset `off`.
pub open spec fn spec_fixup(s: Seq<u8>, off: int) -> VertexFileFixup {
    VertexFileFixup {
        lod: le_i32(s, off),
        source_vertex_id: le_i32(s, off + 4),
        vertex_count: le_i32(s, off + 8),
    }
}

/// The vertex record stored at byte offset `off`.
pub open spec fn spec_vertex(s: Seq<u8>, off: int) -> Vertex {
    Vertex {
        bone_weights: BoneWeights {
            weight: [le32(s, off), le32(s, off + 4), le32(s, off + 8)],
            bone: [s[off + 12], s[off + 13], s[off + 14]],
            bone_count: s[off + 15],
        },
        position: spec_vector(s, off + 16),
        normal: spec_vector(s, off + 28),
        texture_coordinates: [le32(s, off + 40), le32(s, off + 44)],
    }
}

/// Whether `h` is the header stored at the start of `s`.
pub open spec fn vvd_header_matches(h: VvdHeader, s: Seq<u8>) -> bool {
    &&& h.id == le_i32(s, 0)
    &&& h.version == le_i32(s, 4)
    &&& h.checksum == [s[8], s[9], s[10], s[11]]
    &&& h.lod_count == le_i32(s, 12)
    &&& h.lod_vertex_count == [
        le_i32(s, 16),
        le_i32(s, 20),
        le_i32(s, 24),
        le_i32(s, 28),
        le_i32(s, 32),
        le_i32(s, 36),
        le_i32(s, 40),
        le_i32(s, 44),
    ]
    &&& h.fixup_count == le_i32(s, 48)
    &&& h.fixup_index == le_i32(s, 52)
    &&& h.vertex_index == le_i32(s, 56)
    &&& h.tangent_index == le_i32(s, 60)
}

impl VvdHeader {
    /// Read the header at the start of the file.
    pub fn read(data: &[u8]) -> (r: Result<VvdHeader, ModelError>)
        ensures
            match r {
                Ok(h) => data@.len() >= VVD_HEADER_SIZE && vvd_header_matches(h, data@),
                Err(e) => data@.len() < VVD_HEADER_SIZE && e == ModelError::Eof(VVD_HEADER_SIZE),
            },
    {
        if data.len() < VVD_HEADER_SIZE {
            return Err(ModelError::Eof(VVD_HEADER_SIZE));
        }
        Ok(
            VvdHeader {
                id: get_i32(data, 0),
                version: get_i32(data, 4),
                checksum: [get_u8(data, 8), get_u8(data, 9), get_u8(data, 10), get_u8(data, 11)],
                lod_count: get_i32(data, 12),
                lod_vertex_count: [
                    get_i32(data, 16),
                    get_i32(data, 20),
                    get_i32(data, 24),
                    get_i32(data, 28),
                    get_i32(data, 32),
                    get_i32(data, 36),
                    get_i32(data, 40),
                    get_i32(data, 44),
                ],
                fixup_count: get_i32(data, 48),
                fixup_index: get_i32(data, 52),
                vertex_index: get_i32(data, 56),
                tangent_index: get_i32(data, 60),
            },
        )
    }

    /// The offsets of the fix-up table's records.
    pub fn fixup_indexes(&self) -> (r: IndexRange)
        ensures
            r.base as int == extend_signed(self.fixup_index),
            r.count == clamp_count(self.fixup_count),
            r.stride == FIXUP_SIZE,
    {
        index_range(self.fixup_index, self.fixup_count, FIXUP_SIZE)
    }

    /// Whether the file carries a fix-up table.
    pub fn has_fixups(&self) -> (r: bool)
        ensures
            r == (self.fixup_count > 0),
    {
        self.fixup_count > 0
    }

    /// The offsets of the vertex records of the given detail level, or
    /// `None` where the file has no such level.
    pub fn vertex_indexes(&self, lod: i32) -> (r: Option<IndexRange>)
        requires
            0 <= lod < 8,
        ensures
            match r {
                Some(ir) => lod < self.lod_count && ir.base as int == extend_signed(
                    self.vertex_index,
                ) && ir.count == clamp_count(self.lod_vertex_count[lod as int]) && ir.stride
                    == VERTEX_SIZE,
                None => lod >= self.lod_count,
            },
    {
        if lod < self.lod_count {
            Some(index_range(self.vertex_index, self.lod_vertex_count[lod as usize], VERTEX_SIZE))
        } else {
            None
        }
    }

    /// The offsets of the tangent records of the given detail level, or
    /// `None` where the file has no such level.
    pub fn tangent_indexes(&self, lod: i32) -> (r: Option<IndexRange>)
        requires
            0 <= lod < 8,
        ensures
            match r {
                Some(ir) => lod < self.lod_count && ir.base as int == extend_signed(
                    self.tangent_index,
                ) && ir.count == clamp_count(self.lod_vertex_count[lod as int]) && ir.stride
                    == TANGENT_SIZE,
                None => lod >= self.lod_count,
            },
    {
        if lod < self.lod_count {
            Some(index_range(self.tangent_index, self.lod_vertex_count[lod as usize], TANGENT_SIZE))
        } else {
            None
        }
    }
}

/// A record count as the table walk uses it: negative counts are empty.
pub open spec fn clamp_count(c: i32) -> int {
    if c >= 0 {
        c as int
    } else {
        0
    }
}

// ------------------------------------------------------------------
// Whole-file parse: specification.
// ------------------------------------------------------------------

/// The vertex records of the highest detail level.
pub open spec fn spec_source_vertices(s: Seq<u8>) -> Seq<Vertex> {
    Seq::new(
        clamp_count(le_i32(s, 16)) as nat,
        |i: int| spec_vertex(s, sat_off(extend_signed(le_i32(s, 56)), i, VERTEX_SIZE as int)),
    )
}

/// The tangent records of the highest detail level.
pub open spec fn spec_source_tangents(s: Seq<u8>) -> Seq<Tangent> {
    Seq::new(
        clamp_count(le_i32(s, 16)) as nat,
        |i: int| spec_tangent(s, sat_off(extend_signed(le_i32(s, 60)), i, TANGENT_SIZE as int)),
    )
}

/// The fix-up table.
pub open spec fn spec_fixups(s: Seq<u8>) -> Seq<VertexFileFixup> {
    Seq::new(
        clamp_count(le_i32(s, 48)) as nat,
        |i: int| spec_fixup(s, sat_off(extend_signed(le_i32(s, 52)), i, FIXUP_SIZE as int)),
    )
}

/// The source-array range a fix-up copies: start index and one-past-end
/// index, exactly as the 32-bit fields become slice indices (the end is
/// the saturated signed sum, reinterpreted as an index).
pub open spec fn fixup_from(f: VertexFileFixup) -> int {
    extend_signed(f.source_vertex_id)
}

/// The one-past-end index of the range a fix-up copies.
pub open spec fn fixup_to(f: VertexFileFixup) -> int {
    let t = sat_add32(f.source_vertex_id as int, f.vertex_count as int);
    if t >= 0 {
        t
    } else {
        usize::MAX + 1 + t
    }
}

/// Whether a fix-up names a valid range of a source array of `src_len`
/// records.
pub open spec fn fixup_valid(f: VertexFileFixup, src_len: int) -> bool {
    0 <= fixup_from(f) && fixup_from(f) <= fixup_to(f) && fixup_to(f) <= src_len
}

/// The concatenation of the source ranges the fix-ups name, in order.
pub open spec fn apply_fixups<T>(src: Seq<T>, fx: Seq<VertexFileFixup>) -> Seq<T>
    decreases fx.len(),
{
    if fx.len() == 0 {
        Seq::empty()
    } else {
        apply_fixups(src, fx.drop_last()) + src.subrange(
            fixup_from(fx.last()),
            fixup_to(fx.last()),
        )
    }
}

/// The total number of records the fix-ups copy.
pub open spec fn fixup_total(fx: Seq<VertexFileFixup>) -> int
    decreases fx.len(),
{
    if fx.len() == 0 {
        0
    } else {
        fixup_total(fx.drop_last()) + (fixup_to(fx.last()) - fixup_from(fx.last()))
    }
}

/// Whether the fix-up walk fails from fix-up `i` on, and how: reading the
/// record itself can fail, and a range outside the source arrays is out of
/// bounds.
pub open spec fn fixup_walk_fault(s: Seq<u8>, i: int, src_len: int) -> Option<ModelError>
    decreases clamp_count(le_i32(s, 48)) - i,
{
    let base = extend_signed(le_i32(s, 52));
    let count = clamp_count(le_i32(s, 48));
    if i >= count {
        None
    } else if sat_off(base, i, FIXUP_SIZE as int) + FIXUP_SIZE > s.len() {
        Some(read_fault(s.len() as int, sat_off(base, i, FIXUP_SIZE as int), FIXUP_SIZE as int, "fixup"))
    } else {
        let f = spec_fixup(s, sat_off(base, i, FIXUP_SIZE as int));
        if !fixup_valid(f, src_len) {
            Some(
                ModelError::OutOfBounds {
                    data: "source_vertices",
                    offset: fixup_to(f) as usize,
                },
            )
        } else {
            fixup_walk_fault(s, i + 1, src_len)
        }
    }
}

/// Whether parsing a whole VVD file fails, and how. The checks run in the
/// order of the reads: header, detail-level selection, vertex array,
/// tangent array, fix-up walk.
pub open spec fn vvd_fault(s: Seq<u8>) -> Option<ModelError> {
    let len = s.len() as int;
    let count = clamp_count(le_i32(s, 16));
    if s.len() < VVD_HEADER_SIZE {
        Some(ModelError::Eof(VVD_HEADER_SIZE))
    } else if le_i32(s, 12) <= 0 {
        Some(ModelError::OutOfBounds { data: "model_lod", offset: 0 })
    } else if records_fault(
        len,
        extend_signed(le_i32(s, 56)),
        VERTEX_SIZE as int,
        VERTEX_SIZE as int,
        count,
        "vertex",
    ) is Some {
        records_fault(
            len,
            extend_signed(le_i32(s, 56)),
            VERTEX_SIZE as int,
            VERTEX_SIZE as int,
            count,
            "vertex",
        )
    } else if records_fault(
        len,
        extend_signed(le_i32(s, 60)),
        TANGENT_SIZE as int,
        TANGENT_SIZE as int,
        count,
        "tangent",
    ) is Some {
        records_fault(
            len,
            extend_signed(le_i32(s, 60)),
            TANGENT_SIZE as int,
            TANGENT_SIZE as int,
            count,
            "tangent",
        )
    } else if le_i32(s, 48) > 0 {
        fixup_walk_fault(s, 0, count)
    } else {
        None
    }
}

/// The canonical vertex sequence of a successfully parsed file: the
/// fix-up concatenation where fix-ups are present, the raw array
/// otherwise.
pub open spec fn vvd_vertices(s: Seq<u8>) -> Seq<Vertex> {
    if le_i32(s, 48) > 0 {
        apply_fixups(spec_source_vertices(s), spec_fixups(s))
    } else {
        spec_source_vertices(s)
    }
}

/// The canonical tangent sequence of a successfully parsed file.
pub open spec fn vvd_tangents(s: Seq<u8>) -> Seq<Tangent> {
    if le_i32(s, 48) > 0 {
        apply_fixups(spec_source_tangents(s), spec_fixups(s))
    } else {
        spec_source_tangents(s)
    }
}

/// The sum of the `vertex_count` fields of a fix-up table.
pub open spec fn fixup_count_sum(fx: Seq<VertexFileFixup>) -> int
    decreases fx.len(),
{
    if fx.len() == 0 {
        0
    } else {
        fixup_count_sum(fx.drop_last()) + fx.last().vertex_count
    }
}

/// The vertex stream a fix-up table produces is exactly as long as the sum
/// of the table's `vertex_count` fields, for every table whose entries
/// name sane ranges (start and count non-negative, end not overflowing the
/// signed 32-bit range — which holds of every table a successful parse
/// walked).
pub proof fn lemma_fixup_total_is_count_sum(fx: Seq<VertexFileFixup>)
    requires
        forall|i: int|
            0 <= i < fx.len() ==> {
                &&& 0 <= (#[trigger] fx[i]).source_vertex_id
                &&& 0 <= fx[i].vertex_count
                &&& fx[i].source_vertex_id + fx[i].vertex_count <= i32::MAX
            },
    ensures
        fixup_total(fx) == fixup_count_sum(fx),
    decreases fx.len(),
{
    if fx.len() > 0 {
        assert(fx.drop_last().len() == fx.len() - 1);
        assert(forall|i: int| 0 <= i < fx.drop_last().len() ==> fx.drop_last()[i] == fx[i]);
        lemma_fixup_total_is_count_sum(fx.drop_last());
        let f = fx.last();
        assert(fixup_to(f) - fixup_from(f) == f.vertex_count);
    }
}

// ------------------------------------------------------------------
// Whole-file parse: execution.
// ------------------------------------------------------------------

/// A parsed vertex-data file: the header and the canonical per-LOD vertex
/// and tangent sequences (highest detail level), with fix-ups applied.
#[derive(Debug, Clone, PartialEq, Eq)]
pub struct Vvd {
    pub header: VvdHeader,
    pub vertices: Vec<Vertex>,
    pub tangents: Vec<Tangent>,
}

impl Vvd {
    /// Parse a vertex-data file.
    ///
    /// On success the vertex and tangent sequences are exactly the wire
    /// contents with fix-ups applied, and are equally long; every fault is
    /// the named error, never a panic.
    #[verifier::loop_isolation(false)]
    #[verifier::rlimit(60)]
    pub fn read(data: &[u8]) -> (r: Result<Vvd, ModelError>)
        ensures
            match r {
                Ok(v) => {
                    &&& vvd_fault(data@) is None
                    &&& vvd_header_matches(v.header, data@)
                    &&& v.vertices@ == vvd_vertices(data@)
                    &&& v.tangents@ == vvd_tangents(data@)
                    &&& v.vertices@.len() == v.tangents@.len()
                    &&& !(v.header.fixup_count > 0) ==> v.vertices@.len() == clamp_count(
                        v.header.lod_vertex_count[0],
                    )
                    &&& v.header.fixup_count > 0 ==> v.vertices@.len() == fixup_total(
                        spec_fixups(data@),
                    )
                },
                Err(e) => vvd_fault(data@) == Some(e),
            },
    {
        let len = data.len();
        let header = match VvdHeader::read(data) {
            Ok(h) => h,
            Err(e) => {
                return Err(e);
            },
        };
        let vertex_range = match header.vertex_indexes(0) {
            Some(ir) => ir,
            None => {
                return Err(ModelError::OutOfBounds { data: "model_lod", offset: 0 });
            },
        };
        let tangent_range = match header.tangent_indexes(0) {
            Some(ir) => ir,
            None => {
                return Err(ModelError::OutOfBounds { data: "model_lod", offset: 0 });
            },
        };

        // Raw vertex array.
        let mut source_vertices: Vec<Vertex> = Vec::new();
        let vcount = vertex_range.len();
        for i in 0..vcount
            invariant
                data@.len() == len,
                vcount == clamp_count(le_i32(data@, 16)),
                vertex_range.base as int == extend_signed(le_i32(data@, 56)),
                vertex_range.stride == VERTEX_SIZE,
                vertex_range.count == vcount,
                records_fault_from(
                    len as int,
                    vertex_range.base as int,
                    VERTEX_SIZE as int,
                    VERTEX_SIZE as int,
                    vcount as int,
                    i as int,
                    "vertex",
                ) == records_fault(
                    len as int,
                    vertex_range.base as int,
                    VERTEX_SIZE as int,
                    VERTEX_SIZE as int,
                    vcount as int,
                    "vertex",
                ),
                source_vertices@.len() == i,
                forall|j: int|
                    0 <= j < i ==> source_vertices@[j] == spec_source_vertices(data@)[j],
        {
            let off = vertex_range.nth(i);
            if off > len || len - off < VERTEX_SIZE {
                let e = if off > len {
                    ModelError::OutOfBounds { data: "vertex", offset: off }
                } else {
                    ModelError::Eof(VERTEX_SIZE)
                };
                return Err(e);
            }
            let v = read_vertex(data, off);
            source_vertices.push(v);
        }

        // Raw tangent array.
        let mut source_tangents: Vec<Tangent> = Vec::new();
        let tcount = tangent_range.len();
        for i in 0..tcount
            invariant
                data@.len() == len,
                tcount == clamp_count(le_i32(data@, 16)),
                tangent_range.base as int == extend_signed(le_i32(data@, 60)),
                tangent_range.stride == TANGENT_SIZE,
                tangent_range.count == tcount,
                records_fault(
                    len as int,
                    extend_signed(le_i32(data@, 56)),
                    VERTEX_SIZE as int,
                    VERTEX_SIZE as int,
                    tcount as int,
                    "vertex",
                ) is None,
                records_fault_from(
                    len as int,
                    tangent_range.base as int,
                    TANGENT_SIZE as int,
                    TANGENT_SIZE as int,
                    tcount as int,
                    i as int,
                    "tangent",
                ) == records_fault(
                    len as int,
                    tangent_range.base as int,
                    TANGENT_SIZE as int,
                    TANGENT_SIZE as int,
                    tcount as int,
                    "tangent",
                ),
                source_tangents@.len() == i,
                forall|j: int|
                    0 <= j < i ==> source_tangents@[j] == spec_source_tangents(data@)[j],
        {
            let off = tangent_range.nth(i);
            if off > len || len - off < TANGENT_SIZE {
                let e = if off > len {
                    ModelError::OutOfBounds { data: "tangent", offset: off }
                } else {
                    ModelError::Eof(TANGENT_SIZE)
                };
                return Err(e);
            }
            let t = get_tangent(data, off);
            source_tangents.push(t);
        }
        proof {
            assert(source_vertices@ =~= spec_source_vertices(data@));
            assert(source_tangents@ =~= spec_source_tangents(data@));
        }

        if !header.has_fixups() {
            return Ok(Vvd { header, vertices: source_vertices, tangents: source_tangents });
        }

        // Fix-up walk: copy the named ranges, in order.
        let fixup_range = header.fixup_indexes();
        let fcount = fixup_range.len();
        let mut vertices: Vec<Vertex> = Vec::new();
        let mut tangents: Vec<Tangent> = Vec::new();
        let ghost fxs = spec_fixups(data@);
        for i in 0..fcount
            invariant
                data@.len() == len,
                le_i32(data@, 48) > 0,
                fcount == clamp_count(le_i32(data@, 48)),
                fixup_range.base as int == extend_signed(le_i32(data@, 52)),
                fixup_range.stride == FIXUP_SIZE,
                fixup_range.count == fcount,
                source_vertices@ == spec_source_vertices(data@),
                source_tangents@ == spec_source_tangents(data@),
                source_vertices@.len() == source_tangents@.len(),
                fxs == spec_fixups(data@),
                fixup_walk_fault(data@, i as int, source_vertices@.len() as int)
                    == fixup_walk_fault(data@, 0, source_vertices@.len() as int),
                vertices@ == apply_fixups(source_vertices@, fxs.take(i as int)),
                tangents@ == apply_fixups(source_tangents@, fxs.take(i as int)),
                vertices@.len() == fixup_total(fxs.take(i as int)),
                tangents@.len() == vertices@.len(),
        {
            let off = fixup_range.nth(i);
            if off > len || len - off < FIXUP_SIZE {
                let e = if off > len {
                    ModelError::OutOfBounds { data: "fixup", offset: off }
                } else {
                    ModelError::Eof(FIXUP_SIZE)
                };
                return Err(e);
            }
            let fixup = VertexFileFixup {
                lod: get_i32(data, off),
                source_vertex_id: get_i32(data, off + 4),
                vertex_count: get_i32(data, off + 8),
            };
            let from = extend_to_usize(fixup.source_vertex_id);
            let to_signed = saturating_add32(fixup.source_vertex_id, fixup.vertex_count);
            let to = extend_to_usize(to_signed);
            if !(from <= to && to <= source_vertices.len()) {
                return Err(ModelError::OutOfBounds { data: "source_vertices", offset: to });
            }
            proof {
                assert(fxs[i as int] == fixup);
                assert(fixup_valid(fixup, source_vertices@.len() as int));
            }
            let mut j = from;
            while j < to
                invariant
                    from <= j <= to,
                    to <= source_vertices@.len(),
                    source_vertices@.len() == source_tangents@.len(),
                    vertices@ == apply_fixups(source_vertices@, fxs.take(i as int))
                        + source_vertices@.subrange(from as int, j as int),
                    tangents@ == apply_fixups(source_tangents@, fxs.take(i as int))
                        + source_tangents@.subrange(from as int, j as int),
                decreases to - j,
            {
                vertices.push(source_vertices[j]);
                tangents.push(source_tangents[j]);
                proof {
                    assert(source_vertices@.subrange(from as int, j + 1 as int)
                        =~= source_vertices@.subrange(from as int, j as int).push(
                        source_vertices@[j as int],
                    ));
                    assert(source_tangents@.subrange(from as int, j + 1 as int)
                        =~= source_tangents@.subrange(from as int, j as int).push(
                        source_tangents@[j as int],
                    ));
                    assert(vertices@ =~= apply_fixups(source_vertices@, fxs.take(i as int))
                        + source_vertices@.subrange(from as int, j + 1 as int));
                    assert(tangents@ =~= apply_fixups(source_tangents@, fxs.take(i as int))
                        + source_tangents@.subrange(from as int, j + 1 as int));
                }
                j = j + 1;
            }
            proof {
                assert(fxs.take(i + 1 as int).drop_last() =~= fxs.take(i as int));
                assert(fxs.take(i + 1 as int).last() == fixup);
                assert(from as int == fixup_from(fixup));
                assert(to as int == fixup_to(fixup));
                assert(vertices@ =~= apply_fixups(source_vertices@, fxs.take(i + 1 as int)));
                assert(tangents@ =~= apply_fixups(source_tangents@, fxs.take(i + 1 as int)));
            }
        }
        proof {
            assert(fxs.take(fcount as int) =~= fxs);
        }
        Ok(Vvd { header, vertices, tangents })
    }
}

/// Read the vertex record at `off`.
pub fn read_vertex(data: &[u8], off: usize) -> (r: Vertex)
    requires
        off + VERTEX_SIZE <= data@.len(),
    ensures
        r == spec_vertex(data@, off as int),
{
    let len = data.len();
    Vertex {
        bone_weights: BoneWeights {
            weight: [get_u32(data, off), get_u32(data, off + 4), get_u32(data, off + 8)],
            bone: [get_u8(data, off + 12), get_u8(data, off + 13), get_u8(data, off + 14)],
            bone_count: get_u8(data, off + 15),
        },
        position: get_vector(data, off + 16),
        normal: get_vector(data, off + 28),
        texture_coordinates: [get_u32(data, off + 40), get_u32(data, off + 44)],
    }
}

} // verus!
