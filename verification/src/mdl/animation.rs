//! Per-bone animation tracks of the model definition file: packed
//! rotations, run-length-encoded value streams and the per-frame decode.

use vstd::prelude::*;

use crate::compressed_vector::{
    get_quaternion48, get_quaternion64, get_vector48, spec_quaternion48, spec_quaternion64,
    spec_vector48, Quaternion48, Quaternion64, Vector48,
};
use crate::error::ModelError;
use crate::mdl::header::{ANIMATION_DESCRIPTION_SIZE, POSE_PARAMETER_SIZE};
use crate::reader::{
    extend_signed, extend_to_usize, get_i16, get_i32, get_u16, get_u32, get_u8, le16, le32,
    le_i16, le_i32, read_string_rel, string_rel_fault, string_rel_value,
};

verus! {

/// One pose parameter: a named scalar range the application drives.
#[derive(Debug, Clone, PartialEq, Eq)]
pub struct PoseParameterDescription {
    pub name: String,
    pub flags: i32,
    /// An IEEE-754 single-precision bit pattern.
    pub start: u32,
    /// An IEEE-754 single-precision bit pattern.
    pub end: u32,
    /// An IEEE-754 single-precision bit pattern.
    pub loop_range: u32,
}

/// The fault of reading the pose parameter at `off`, if any.
pub open spec fn pose_parameter_fault(s: Seq<u8>, off: int) -> Option<ModelError> {
    if s.len() - off < POSE_PARAMETER_SIZE {
        Some(ModelError::Eof(POSE_PARAMETER_SIZE))
    } else {
        string_rel_fault(s, off, le_i32(s, off), false)
    }
}

/// Whether `p` is the pose parameter stored at byte offset `off`.
pub open spec fn pose_parameter_matches(p: PoseParameterDescription, s: Seq<u8>, off: int) -> bool {
    &&& p.name@ == string_rel_value(s, off, le_i32(s, off), false)
    &&& p.flags == le_i32(s, off + 4)
    &&& p.start == le32(s, off + 8)
    &&& p.end == le32(s, off + 12)
    &&& p.loop_range == le32(s, off + 16)
}

/// Read the pose parameter at `off`.
pub fn read_pose_parameter(data: &[u8], off: usize) -> (r: Result<
    PoseParameterDescription,
    ModelError,
>)
    requires
        off <= data@.len(),
    ensures
        match r {
            Ok(p) => pose_parameter_fault(data@, off as int) is None && pose_parameter_matches(
                p,
                data@,
                off as int,
            ),
            Err(e) => pose_parameter_fault(data@, off as int) == Some(e),
        },
{
    let len = data.len();
    if len - off < POSE_PARAMETER_SIZE {
        return Err(ModelError::Eof(POSE_PARAMETER_SIZE));
    }
    let name = match read_string_rel(data, off, get_i32(data, off), false) {
        Ok(v) => v,
        Err(e) => {
            return Err(e);
        },
    };
    Ok(
        PoseParameterDescription {
            name,
            flags: get_i32(data, off + 4),
            start: get_u32(data, off + 8),
            end: get_u32(data, off + 12),
            loop_range: get_u32(data, off + 16),
        },
    )
}

/// One animation block of the external animation file.
#[derive(Debug, Clone, Copy, PartialEq, Eq, Structural)]
pub struct AnimationBlock {
    pub start: i32,
    pub end: i32,
}

/// The animation block stored at byte offset `off`.
pub open spec fn spec_animation_block(s: Seq<u8>, off: int) -> AnimationBlock {
    AnimationBlock { start: le_i32(s, off), end: le_i32(s, off + 4) }
}

/// The four-byte header of one per-bone animation record in a chain.
#[derive(Debug, Clone, Copy, PartialEq, Eq, Structural)]
pub struct AnimationHeader {
    pub bone: u8,
    pub flags: AnimationFlags,
    /// The byte delta to the next record of the chain, 0 at the end.
    pub next_offset: u16,
}

/// Per-animation flags: which rotation and position payloads follow.
#[derive(Debug, Clone, Copy, PartialEq, Eq, Structural)]
pub struct AnimationFlags(pub u8);

/// Bit 0: the position is a 48-bit vector.
pub open spec fn flag_raw_pos(f: AnimationFlags) -> bool {
    f.0 % 2 == 1
}

/// Bit 1: the rotation is a 48-bit quaternion.
pub open spec fn flag_raw_rot(f: AnimationFlags) -> bool {
    f.0 / 2 % 2 == 1
}

/// Bit 2: the position is a per-frame value stream.
pub open spec fn flag_anim_pos(f: AnimationFlags) -> bool {
    f.0 / 4 % 2 == 1
}

/// Bit 3: the rotation is a per-frame value stream.
pub open spec fn flag_anim_rot(f: AnimationFlags) -> bool {
    f.0 / 8 % 2 == 1
}

/// Bit 4: the track stores deltas against the bone's rest rotation.
pub open spec fn flag_delta(f: AnimationFlags) -> bool {
    f.0 / 16 % 2 == 1
}

/// Bit 5: the rotation is a 64-bit quaternion.
pub open spec fn flag_raw_rot2(f: AnimationFlags) -> bool {
    f.0 / 32 % 2 == 1
}

impl AnimationFlags {
    /// Whether the position is a 48-bit vector.
    pub fn raw_pos(&self) -> (r: bool)
        ensures
            r == flag_raw_pos(*self),
    {
        self.0 % 2 == 1
    }

    /// Whether the rotation is a 48-bit quaternion.
    pub fn raw_rot(&self) -> (r: bool)
        ensures
            r == flag_raw_rot(*self),
    {
        self.0 / 2 % 2 == 1
    }

    /// Whether the position is a per-frame value stream.
    pub fn anim_pos(&self) -> (r: bool)
        ensures
            r == flag_anim_pos(*self),
    {
        self.0 / 4 % 2 == 1
    }

    /// Whether the rotation is a per-frame value stream.
    pub fn anim_rot(&self) -> (r: bool)
        ensures
            r == flag_anim_rot(*self),
    {
        self.0 / 8 % 2 == 1
    }

    /// Whether the track stores deltas against the bone's rest rotation.
    pub fn delta(&self) -> (r: bool)
        ensures
            r == flag_delta(*self),
    {
        self.0 / 16 % 2 == 1
    }

    /// Whether the rotation is a 64-bit quaternion.
    pub fn raw_rot2(&self) -> (r: bool)
        ensures
            r == flag_raw_rot2(*self),
    {
        self.0 / 32 % 2 == 1
    }
}

/// The two-byte header of one node of a run-length-encoded value stream:
/// `valid` stored values covering `total` frames.
#[derive(Debug, Clone, Copy, PartialEq, Eq, Structural)]
pub struct ValueHeader {
    pub valid: u8,
    pub total: u8,
}

/// Three 16-bit pointers, one per axis, into the value stream; 0 means
/// the axis is constantly zero.
#[derive(Debug, Clone, Copy, PartialEq, Eq)]
pub struct AnimationValuePointer(pub [u16; 3]);

/// One raw per-frame value triple of an animated track (unscaled wire
/// values; the owning bone's scale turns them into radians or units).
#[derive(Debug, Clone, Copy, PartialEq, Eq, Structural)]
pub struct AnimValue {
    pub x: i16,
    pub y: i16,
    pub z: i16,
}

// ------------------------------------------------------------------
// The chained run-length value stream.
// ------------------------------------------------------------------

/// The value a stream node at `node` yields for frame `idx`, or the fault
/// of the walk. If the frame lies beyond the node's span, the walk
/// subtracts the span and moves to the next node, which begins
/// `2 × (valid + 1)` bytes after this one; a node with span 0 yields 0.
/// Within a node, frames past the last stored value re-use it.
pub open spec fn frame_value(s: Seq<u8>, node: int, idx: int) -> Result<i16, ModelError>
    decreases s.len() - node
        when 0 <= node && node + 2 <= s.len()
{
    let valid = s[node] as int;
    let total = s[node + 1] as int;
    if total <= idx {
        let offset = (valid + 1) * 2;
        if offset > s.len() - node {
            Err(ModelError::OutOfBounds { data: "value_header", offset: offset as usize })
        } else if s.len() - (node + offset) < 2 {
            Err(ModelError::Eof(2))
        } else if s[node + offset + 1] == 0 {
            Ok(0i16)
        } else {
            frame_value(s, node + offset, idx - total)
        }
    } else {
        let count = if valid > idx {
            idx + 1
        } else {
            valid as int
        };
        let offset = count * 2;
        if offset > s.len() - node {
            Err(ModelError::OutOfBounds { data: "value", offset: offset as usize })
        } else if s.len() - (node + offset) < 2 {
            Err(ModelError::Eof(2))
        } else {
            Ok(le_i16(s, node + offset))
        }
    }
}

/// A view into a run-length-encoded value stream, at the node whose
/// header has been read.
pub struct FrameValues<'a> {
    pub data: &'a [u8],
    /// The byte offset of the node this view stands at.
    pub base: usize,
    pub header: ValueHeader,
}

impl<'a> FrameValues<'a> {
    /// Whether the view is a node of its stream: in bounds, with the
    /// header fields read from it.
    pub open spec fn wf(self) -> bool {
        &&& self.base + 2 <= self.data@.len()
        &&& self.header.valid == self.data@[self.base as int]
        &&& self.header.total == self.data@[self.base as int + 1]
    }

    /// The value this node's stream yields for frame `index`, walking the
    /// chain as far as needed.
    pub fn get(&self, index: usize) -> (r: Result<i16, ModelError>)
        requires
            self.wf(),
        ensures
            r == frame_value(self.data@, self.base as int, index as int),
        decreases self.data@.len() - self.base,
    {
        let len = self.data.len();
        if self.header.total as usize <= index {
            let offset: usize = (self.header.valid as usize + 1) * 2;
            if offset > len - self.base {
                return Err(ModelError::OutOfBounds { data: "value_header", offset });
            }
            let next_base = self.base + offset;
            if len - next_base < 2 {
                return Err(ModelError::Eof(2));
            }
            let next_header = ValueHeader {
                valid: get_u8(self.data, next_base),
                total: get_u8(self.data, next_base + 1),
            };
            if next_header.total == 0 {
                return Ok(0);
            }
            let next = FrameValues { data: self.data, base: next_base, header: next_header };
            next.get(index - self.header.total as usize)
        } else {
            let count: usize = if self.header.valid as usize > index {
                index + 1
            } else {
                self.header.valid as usize
            };
            let offset: usize = count * 2;
            if offset > len - self.base {
                return Err(ModelError::OutOfBounds { data: "value", offset });
            }
            if len - (self.base + offset) < 2 {
                return Err(ModelError::Eof(2));
            }
            Ok(get_i16(self.data, self.base + offset))
        }
    }
}

/// The value one axis pointer yields for frame `idx`: 0 for a null
/// pointer, else the stream walk from the node the pointer names.
pub open spec fn axis_value(s: Seq<u8>, vbase: int, ptr: u16, idx: int) -> Result<i16, ModelError> {
    if ptr == 0 {
        Ok(0i16)
    } else if ptr > s.len() - vbase {
        Err(ModelError::OutOfBounds { data: "value_header", offset: ptr as usize })
    } else if s.len() - (vbase + ptr) < 2 {
        Err(ModelError::Eof(2))
    } else {
        frame_value(s, vbase + ptr, idx)
    }
}

/// Read the three axis values of one frame, walking each axis's chain as
/// far as the frame index asks. `vbase` is where the value stream begins.
pub fn read_animation_values(data: &[u8], vbase: usize, pointers: AnimationValuePointer, frame: usize) -> (r:
    Result<[i16; 3], ModelError>)
    requires
        vbase <= data@.len(),
    ensures
        match r {
            Ok(v) => {
                &&& axis_value(data@, vbase as int, pointers.0[0], frame as int) == Ok::<
                    i16,
                    ModelError,
                >(v[0])
                &&& axis_value(data@, vbase as int, pointers.0[1], frame as int) == Ok::<
                    i16,
                    ModelError,
                >(v[1])
                &&& axis_value(data@, vbase as int, pointers.0[2], frame as int) == Ok::<
                    i16,
                    ModelError,
                >(v[2])
            },
            Err(e) => {
                ||| axis_value(data@, vbase as int, pointers.0[0], frame as int) == Err::<
                    i16,
                    ModelError,
                >(e)
                ||| {
                    &&& axis_value(data@, vbase as int, pointers.0[0], frame as int) is Ok
                    &&& axis_value(data@, vbase as int, pointers.0[1], frame as int) == Err::<
                        i16,
                        ModelError,
                    >(e)
                }
                ||| {
                    &&& axis_value(data@, vbase as int, pointers.0[0], frame as int) is Ok
                    &&& axis_value(data@, vbase as int, pointers.0[1], frame as int) is Ok
                    &&& axis_value(data@, vbase as int, pointers.0[2], frame as int) == Err::<
                        i16,
                        ModelError,
                    >(e)
                }
            },
        },
{
    let v0 = match read_axis(data, vbase, pointers.0[0], frame) {
        Ok(v) => v,
        Err(e) => {
            return Err(e);
        },
    };
    let v1 = match read_axis(data, vbase, pointers.0[1], frame) {
        Ok(v) => v,
        Err(e) => {
            return Err(e);
        },
    };
    let v2 = match read_axis(data, vbase, pointers.0[2], frame) {
        Ok(v) => v,
        Err(e) => {
            return Err(e);
        },
    };
    Ok([v0, v1, v2])
}

// ------------------------------------------------------------------
// Per-bone animation records.
// ------------------------------------------------------------------

/// A bone's rotation track: a constant packed quaternion, a per-frame
/// stream of raw Euler triples, or nothing.
#[derive(Debug, Clone, PartialEq, Eq)]
pub enum RotationData {
    Quaternion48(Quaternion48),
    Quaternion64(Quaternion64),
    Animated(Vec<AnimValue>),
    Absent,
}

/// A bone's position track: a constant 48-bit vector, a per-frame stream
/// of raw triples, or nothing.
#[derive(Debug, Clone, PartialEq, Eq)]
pub enum PositionData {
    Vector48(Vector48),
    PositionValues(Vec<AnimValue>),
    Absent,
}

/// One per-bone animation track: which bone it drives and its rotation
/// and position payloads.
#[derive(Debug, Clone, PartialEq, Eq)]
pub struct Animation {
    pub bone: u8,
    pub flags: AnimationFlags,
    pub rotation_data: RotationData,
    pub position_data: PositionData,
}

/// The byte size of the rotation payload the flags select.
pub open spec fn rot_payload_size(f: AnimationFlags) -> int {
    if flag_raw_rot(f) {
        6
    } else if flag_raw_rot2(f) {
        8
    } else if flag_anim_rot(f) {
        6
    } else {
        0
    }
}

impl RotationData {
    /// The byte size of the payload this track was read from.
    pub fn size(&self) -> (r: usize)
        ensures
            r == match self {
                RotationData::Quaternion48(_) => 6int,
                RotationData::Quaternion64(_) => 8int,
                RotationData::Animated(_) => 6int,
                RotationData::Absent => 0int,
            },
    {
        match self {
            RotationData::Quaternion48(_) => 6,
            RotationData::Quaternion64(_) => 8,
            RotationData::Animated(_) => 6,
            RotationData::Absent => 0,
        }
    }
}

/// The three axis pointers stored at byte offset `off`.
pub open spec fn spec_pointers(s: Seq<u8>, off: int) -> AnimationValuePointer {
    AnimationValuePointer([le16(s, off), le16(s, off + 2), le16(s, off + 4)])
}

/// Whether decoding every frame of a pointer stream fails, and how, from
/// frame `f` on; within a frame the three axes are read in order.
pub open spec fn anim_values_fault(
    s: Seq<u8>,
    vbase: int,
    p: AnimationValuePointer,
    frames: int,
    f: int,
) -> Option<ModelError>
    decreases frames - f,
{
    if f >= frames {
        None
    } else {
        let idx = f;
        if axis_value(s, vbase, p.0[0], idx) is Err {
            Some(axis_value(s, vbase, p.0[0], idx).unwrap_err())
        } else if axis_value(s, vbase, p.0[1], idx) is Err {
            Some(axis_value(s, vbase, p.0[1], idx).unwrap_err())
        } else if axis_value(s, vbase, p.0[2], idx) is Err {
            Some(axis_value(s, vbase, p.0[2], idx).unwrap_err())
        } else {
            anim_values_fault(s, vbase, p, frames, f + 1)
        }
    }
}

/// The raw rotation triple of frame `f`: the stream stores the axes in
/// (y, z, x) order, the triple is (x, y, z).
pub open spec fn spec_rot_value(s: Seq<u8>, vbase: int, p: AnimationValuePointer, f: int)
    -> AnimValue {
    AnimValue {
        x: axis_value(s, vbase, p.0[2], f).unwrap(),
        y: axis_value(s, vbase, p.0[0], f).unwrap(),
        z: axis_value(s, vbase, p.0[1], f).unwrap(),
    }
}

/// The raw position triple of frame `f`, in stream order.
pub open spec fn spec_pos_value(s: Seq<u8>, vbase: int, p: AnimationValuePointer, f: int)
    -> AnimValue {
    AnimValue {
        x: axis_value(s, vbase, p.0[0], f).unwrap(),
        y: axis_value(s, vbase, p.0[1], f).unwrap(),
        z: axis_value(s, vbase, p.0[2], f).unwrap(),
    }
}

/// The fault of reading the rotation payload of the animation record at
/// `a`, if any.
pub open spec fn rot_fault(s: Seq<u8>, a: int, frames: int) -> Option<ModelError> {
    let f = AnimationFlags(s[a + 1]);
    if flag_raw_rot(f) {
        if s.len() - (a + 4) < 6 {
            Some(ModelError::Eof(6))
        } else {
            None
        }
    } else if flag_raw_rot2(f) {
        if s.len() - (a + 4) < 8 {
            Some(ModelError::Eof(8))
        } else {
            None
        }
    } else if flag_anim_rot(f) {
        if s.len() - (a + 4) < 6 {
            Some(ModelError::Eof(6))
        } else {
            anim_values_fault(s, a + 4, spec_pointers(s, a + 4), frames, 0)
        }
    } else {
        None
    }
}

/// Whether `rd` is the rotation payload of the animation record at `a`.
pub open spec fn rot_matches(rd: RotationData, s: Seq<u8>, a: int, frames: int) -> bool {
    let f = AnimationFlags(s[a + 1]);
    if flag_raw_rot(f) {
        rd == RotationData::Quaternion48(spec_quaternion48(s, a + 4))
    } else if flag_raw_rot2(f) {
        rd == RotationData::Quaternion64(spec_quaternion64(s, a + 4))
    } else if flag_anim_rot(f) {
        &&& rd matches RotationData::Animated(v)
        &&& v@.len() == frames
        &&& forall|k: int|
            0 <= k < frames ==> v@[k] == spec_rot_value(s, a + 4, spec_pointers(s, a + 4), k)
    } else {
        rd == RotationData::Absent
    }
}

/// The fault of reading the position payload of the animation record at
/// `a` (after a rotation payload of `rsize` bytes), if any.
pub open spec fn pos_fault(s: Seq<u8>, a: int, rsize: int, frames: int) -> Option<ModelError> {
    let f = AnimationFlags(s[a + 1]);
    let p = a + 4 + rsize;
    if flag_raw_pos(f) {
        if s.len() - p < 6 {
            Some(ModelError::Eof(6))
        } else {
            None
        }
    } else if flag_anim_pos(f) {
        if s.len() - p < 6 {
            Some(ModelError::Eof(6))
        } else {
            anim_values_fault(s, p, spec_pointers(s, p), frames, 0)
        }
    } else {
        None
    }
}

/// Whether `pd` is the position payload of the animation record at `a`.
pub open spec fn pos_matches(pd: PositionData, s: Seq<u8>, a: int, rsize: int, frames: int) -> bool {
    let f = AnimationFlags(s[a + 1]);
    let p = a + 4 + rsize;
    if flag_raw_pos(f) {
        pd == PositionData::Vector48(spec_vector48(s, p))
    } else if flag_anim_pos(f) {
        &&& pd matches PositionData::PositionValues(v)
        &&& v@.len() == frames
        &&& forall|k: int| 0 <= k < frames ==> v@[k] == spec_pos_value(s, p, spec_pointers(s, p), k)
    } else {
        pd == PositionData::Absent
    }
}

/// The fault of reading the whole animation record at `a`, if any: the
/// four-byte header, the rotation payload, the position payload.
#[verifier::opaque]
pub open spec fn animation_fault(s: Seq<u8>, a: int, frames: int) -> Option<ModelError> {
    if s.len() - a < 4 {
        Some(ModelError::Eof(4))
    } else if rot_fault(s, a, frames) is Some {
        rot_fault(s, a, frames)
    } else {
        pos_fault(s, a, rot_payload_size(AnimationFlags(s[a + 1])), frames)
    }
}

/// Whether `an` is the animation record stored at `a`.
#[verifier::opaque]
pub open spec fn animation_matches(an: Animation, s: Seq<u8>, a: int, frames: int) -> bool {
    &&& an.bone == s[a]
    &&& an.flags == AnimationFlags(s[a + 1])
    &&& rot_matches(an.rotation_data, s, a, frames)
    &&& pos_matches(an.position_data, s, a, rot_payload_size(AnimationFlags(s[a + 1])), frames)
}

/// The fault of walking the animation chain of a description record at
/// `d` from chain offset `rel` on, if any: each record is read in turn;
/// a non-zero `next_offset` that leaves the record's data is out of
/// bounds.
#[verifier::opaque]
pub open spec fn chain_fault(s: Seq<u8>, d: int, rel: int, frames: int) -> Option<ModelError>
    decreases s.len() - d - rel
        when 0 <= d && 0 <= rel && d + rel <= s.len()
{
    let a = d + rel;
    if animation_fault(s, a, frames) is Some {
        animation_fault(s, a, frames)
    } else {
        let next = le16(s, a + 2) as int;
        if next == 0 {
            None
        } else if rel + next > s.len() - d {
            Some(ModelError::OutOfBounds { data: "animation data", offset: (rel + next) as usize })
        } else {
            chain_fault(s, d, rel + next, frames)
        }
    }
}

/// Whether `anims` is exactly the animation chain of the description
/// record at `d`, starting at chain offset `rel`.
#[verifier::opaque]
pub open spec fn chain_matches(anims: Seq<Animation>, s: Seq<u8>, d: int, rel: int, frames: int)
    -> bool
    decreases s.len() - d - rel
        when 0 <= d && 0 <= rel && d + rel <= s.len()
{
    let a = d + rel;
    &&& anims.len() >= 1
    &&& animation_matches(anims[0], s, a, frames)
    &&& {
        let next = le16(s, a + 2) as int;
        if next == 0 {
            anims.len() == 1
        } else if rel + next <= s.len() - d {
            chain_matches(anims.drop_first(), s, d, rel + next, frames)
        } else {
            true
        }
    }
}

/// Read the animation record at `d + rel` and the offset of the next one.
#[verifier::loop_isolation(false)]
#[verifier::rlimit(100)]
fn read_animation(data: &[u8], d: usize, rel: usize, frames: usize) -> (r: Result<
    (Animation, u16),
    ModelError,
>)
    requires
        d <= data@.len(),
        rel <= data@.len() - d,
    ensures
        match r {
            Ok(v) => animation_fault(data@, d + rel, frames as int) is None && animation_matches(
                v.0,
                data@,
                d + rel,
                frames as int,
            ) && v.1 == le16(data@, d + rel + 2),
            Err(e) => animation_fault(data@, d + rel, frames as int) == Some(e),
        },
{
    proof {
        reveal(animation_fault);
        reveal(animation_matches);
    }
    let len = data.len();
    let a = d + rel;
    if len - a < 4 {
        return Err(ModelError::Eof(4));
    }
    let bone = get_u8(data, a);
    let flags = AnimationFlags(get_u8(data, a + 1));
    let next = get_u16(data, a + 2);

    let rotation_data: RotationData = if flags.raw_rot() {
        if len - (a + 4) < 6 {
            return Err(ModelError::Eof(6));
        }
        RotationData::Quaternion48(get_quaternion48(data, a + 4))
    } else if flags.raw_rot2() {
        if len - (a + 4) < 8 {
            return Err(ModelError::Eof(8));
        }
        RotationData::Quaternion64(get_quaternion64(data, a + 4))
    } else if flags.anim_rot() {
        if len - (a + 4) < 6 {
            return Err(ModelError::Eof(6));
        }
        let pointers = AnimationValuePointer(
            [get_u16(data, a + 4), get_u16(data, a + 6), get_u16(data, a + 8)],
        );
        let vbase = a + 4;
        let mut values: Vec<AnimValue> = Vec::new();
        for f in 0..frames
            invariant
                values@.len() == f,
                forall|k: int|
                    0 <= k < f ==> values@[k] == spec_rot_value(
                        data@,
                        vbase as int,
                        pointers,
                        k,
                    ),
                anim_values_fault(data@, vbase as int, pointers, frames as int, f as int)
                    == anim_values_fault(data@, vbase as int, pointers, frames as int, 0),
        {
            match read_animation_values(data, vbase, pointers, f) {
                Ok(v) => values.push(AnimValue { x: v[2], y: v[0], z: v[1] }),
                Err(e) => {
                    return Err(e);
                },
            }
        }
        RotationData::Animated(values)
    } else {
        RotationData::Absent
    };

    let rsize = rotation_data.size();
    let p = a + 4 + rsize;
    let position_data: PositionData = if flags.raw_pos() {
        if len - p < 6 {
            return Err(ModelError::Eof(6));
        }
        PositionData::Vector48(get_vector48(data, p))
    } else if flags.anim_pos() {
        if len - p < 6 {
            return Err(ModelError::Eof(6));
        }
        let pointers = AnimationValuePointer(
            [get_u16(data, p), get_u16(data, p + 2), get_u16(data, p + 4)],
        );
        let mut values: Vec<AnimValue> = Vec::new();
        for f in 0..frames
            invariant
                values@.len() == f,
                forall|k: int|
                    0 <= k < f ==> values@[k] == spec_pos_value(data@, p as int, pointers, k),
                anim_values_fault(data@, p as int, pointers, frames as int, f as int)
                    == anim_values_fault(data@, p as int, pointers, frames as int, 0),
        {
            match read_animation_values(data, p, pointers, f) {
                Ok(v) => values.push(AnimValue { x: v[0], y: v[1], z: v[2] }),
                Err(e) => {
                    return Err(e);
                },
            }
        }
        PositionData::PositionValues(values)
    } else {
        PositionData::Absent
    };

    Ok((Animation { bone, flags, rotation_data, position_data }, next))
}

/// One named animation: its frame count and its per-bone tracks.
#[derive(Debug, Clone, PartialEq, Eq)]
pub struct AnimationDescription {
    pub name: String,
    /// An IEEE-754 single-precision bit pattern.
    pub fps: u32,
    pub frame_count: usize,
    pub animations: Vec<Animation>,
}

/// The fault of reading the animation description at `off`, if any: the
/// fixed record; a non-zero `animation_block` (external animation files
/// are not carried here) is reported out of bounds; then the chain, then
/// the name.
pub open spec fn animation_description_fault(s: Seq<u8>, off: int) -> Option<ModelError> {
    if s.len() - off < ANIMATION_DESCRIPTION_SIZE {
        Some(ModelError::Eof(ANIMATION_DESCRIPTION_SIZE))
    } else {
        let frames = clamp_frames(le_i32(s, off + 16));
        if le_i32(s, off + 52) != 0 {
            Some(
                ModelError::OutOfBounds {
                    data: "animation_block",
                    offset: extend_signed(le_i32(s, off + 52)) as usize,
                },
            )
        } else {
            let rel0 = extend_signed(le_i32(s, off + 56));
            if rel0 > s.len() - off {
                Some(ModelError::OutOfBounds { data: "animation data", offset: rel0 as usize })
            } else if chain_fault(s, off, rel0, frames) is Some {
                chain_fault(s, off, rel0, frames)
            } else {
                string_rel_fault(s, off, le_i32(s, off + 4), false)
            }
        }
    }
}

/// Whether `d` is the animation description stored at `off`.
pub open spec fn animation_description_matches(d: AnimationDescription, s: Seq<u8>, off: int)
    -> bool {
    &&& d.name@ == string_rel_value(s, off, le_i32(s, off + 4), false)
    &&& d.fps == le32(s, off + 8)
    &&& d.frame_count == clamp_frames(le_i32(s, off + 16))
    &&& chain_matches(
        d.animations@,
        s,
        off,
        extend_signed(le_i32(s, off + 56)),
        clamp_frames(le_i32(s, off + 16)),
    )
}

/// A frame count as the decoder uses it: negative counts are empty.
pub open spec fn clamp_frames(c: i32) -> int {
    if c >= 0 {
        c as int
    } else {
        0
    }
}

/// Read the animation description at `off`: the fixed record, the whole
/// chain of per-bone records with every frame decoded, and the name.
#[verifier::rlimit(100)]
pub fn read_animation_description(data: &[u8], off: usize) -> (r: Result<
    AnimationDescription,
    ModelError,
>)
    requires
        off <= data@.len(),
        data@.len() + 0x1_0000 <= usize::MAX,
    ensures
        match r {
            Ok(d) => animation_description_fault(data@, off as int) is None
                && animation_description_matches(d, data@, off as int),
            Err(e) => animation_description_fault(data@, off as int) == Some(e),
        },
{
    let len = data.len();
    if len - off < ANIMATION_DESCRIPTION_SIZE {
        return Err(ModelError::Eof(ANIMATION_DESCRIPTION_SIZE));
    }
    let frame_count_raw = get_i32(data, off + 16);
    let frames: usize = if frame_count_raw >= 0 {
        frame_count_raw as usize
    } else {
        0
    };
    let animation_block = get_i32(data, off + 52);
    if animation_block != 0 {
        return Err(
            ModelError::OutOfBounds {
                data: "animation_block",
                offset: extend_to_usize(animation_block),
            },
        );
    }
    let rel0 = extend_to_usize(get_i32(data, off + 56));
    if rel0 > len - off {
        return Err(ModelError::OutOfBounds { data: "animation data", offset: rel0 });
    }

    let mut animations: Vec<Animation> = Vec::new();
    let mut rel = rel0;
    proof {
        assert forall|tail: Seq<Animation>|
            chain_matches(tail, data@, off as int, rel0 as int, frames as int)
                implies #[trigger] chain_matches(
            animations@ + tail,
            data@,
            off as int,
            rel0 as int,
            frames as int,
        ) by {
            assert(animations@ + tail =~= tail);
        }
    }
    loop
        invariant_except_break
            data@.len() == len,
            len + 0x1_0000 <= usize::MAX,
            off <= len,
            len - off >= ANIMATION_DESCRIPTION_SIZE,
            frames as int == clamp_frames(le_i32(data@, off as int + 16)),
            le_i32(data@, off as int + 52) == 0,
            rel0 as int == extend_signed(le_i32(data@, off as int + 56)),
            rel0 <= rel <= len - off,
            chain_fault(data@, off as int, rel as int, frames as int) == chain_fault(
                data@,
                off as int,
                rel0 as int,
                frames as int,
            ),
            forall|tail: Seq<Animation>|
                chain_matches(tail, data@, off as int, rel as int, frames as int)
                    ==> #[trigger] chain_matches(
                    animations@ + tail,
                    data@,
                    off as int,
                    rel0 as int,
                    frames as int,
                ),
        ensures
            chain_fault(data@, off as int, rel0 as int, frames as int) is None,
            chain_matches(animations@, data@, off as int, rel0 as int, frames as int),
        decreases len - off - rel,
    {
        let (animation, next) = match read_animation(data, off, rel, frames) {
            Ok(v) => v,
            Err(e) => {
                proof {
                    reveal(chain_fault);
                }
                return Err(e);
            },
        };
        let ghost prev = animations@;
        animations.push(animation);
        if next == 0 {
            proof {
                reveal(chain_fault);
                reveal(chain_matches);
                let tail = seq![animation];
                assert(chain_matches(tail, data@, off as int, rel as int, frames as int));
                assert(chain_matches(prev + tail, data@, off as int, rel0 as int, frames as int));
                assert(animations@ =~= prev + tail);
                assert(chain_fault(data@, off as int, rel as int, frames as int) is None);
            }
            break ;
        }
        let next_rel = rel + next as usize;
        if next_rel > len - off {
            proof {
                reveal(chain_fault);
            }
            return Err(
                ModelError::OutOfBounds { data: "animation data", offset: next_rel },
            );
        }
        proof {
            reveal(chain_fault);
            assert(chain_fault(data@, off as int, next_rel as int, frames as int) == chain_fault(
                data@,
                off as int,
                rel as int,
                frames as int,
            ));
            assert forall|tail: Seq<Animation>|
                chain_matches(tail, data@, off as int, next_rel as int, frames as int)
                    implies #[trigger] chain_matches(
                animations@ + tail,
                data@,
                off as int,
                rel0 as int,
                frames as int,
            ) by {
                reveal(chain_matches);
                let mid = seq![animation] + tail;
                assert(mid.drop_first() =~= tail);
                assert(chain_matches(mid, data@, off as int, rel as int, frames as int));
                assert(chain_matches(prev + mid, data@, off as int, rel0 as int, frames as int));
                assert(prev + mid =~= animations@ + tail);
            }
        }
        rel = next_rel;
    }

    let name = match read_string_rel(data, off, get_i32(data, off + 4), false) {
        Ok(v) => v,
        Err(e) => {
            return Err(e);
        },
    };
    Ok(
        AnimationDescription {
            name,
            fps: get_u32(data, off + 8),
            frame_count: frames,
            animations,
        },
    )
}

/// Read one axis value: resolve the pointer, read the first node header
/// and walk the stream.
fn read_axis(data: &[u8], vbase: usize, ptr: u16, idx: usize) -> (r: Result<i16, ModelError>)
    requires
        vbase <= data@.len(),
    ensures
        r == axis_value(data@, vbase as int, ptr, idx as int),
{
    let len = data.len();
    if ptr == 0 {
        return Ok(0);
    }
    let rel = ptr as usize;
    if rel > len - vbase {
        return Err(ModelError::OutOfBounds { data: "value_header", offset: rel });
    }
    let node = vbase + rel;
    if len - node < 2 {
        return Err(ModelError::Eof(2));
    }
    let header = ValueHeader { valid: get_u8(data, node), total: get_u8(data, node + 1) };
    let values = FrameValues { data, base: node, header };
    values.get(idx)
}

} // verus!
