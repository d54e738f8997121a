//! Bone records of the model definition file: the rest pose, the
//! compressed-animation scales, the pose-to-bone transform and the
//! optional procedural rule.

use vstd::prelude::*;

use crate::error::ModelError;
use crate::math::{
    get_euler, get_quaternion, get_transform, get_vector, spec_euler, spec_quaternion,
    spec_vector, transform_matches, Quaternion, RadianEuler, Transform3x4, Vector,
};
use crate::mdl::header::BONE_SIZE;
use crate::reader::{
    extend_signed, extend_to_usize, get_i32, get_u32, le32, le_i32, string_rel_fault,
    string_rel_value,
};

verus! {

/// Per-bone flags (bit field).
#[derive(Debug, Clone, Copy, PartialEq, Eq, Structural)]
pub struct BoneFlags(pub u32);

/// Per-bone content flags (bit field).
#[derive(Debug, Clone, Copy, PartialEq, Eq, Structural)]
pub struct ContentFlags(pub u32);

/// Jiggle-rule flags (bit field).
#[derive(Debug, Clone, Copy, PartialEq, Eq, Structural)]
pub struct JiggleBoneFlags(pub u32);

/// The tag that selects a bone's procedural rule.
#[derive(Debug, Clone, Copy, PartialEq, Eq, Structural)]
pub enum ProceduralBoneType {
    AxisInterp,
    QuaternionInterp,
    AiMatBone,
    AiMatAttach,
    Jiggle,
}

/// The procedural-rule tag a `proc_type` field selects, if any; unknown
/// tags are tolerated as `None`.
pub open spec fn spec_proc_type(v: i32) -> Option<ProceduralBoneType> {
    if v == 1 {
        Some(ProceduralBoneType::AxisInterp)
    } else if v == 2 {
        Some(ProceduralBoneType::QuaternionInterp)
    } else if v == 3 {
        Some(ProceduralBoneType::AiMatBone)
    } else if v == 4 {
        Some(ProceduralBoneType::AiMatAttach)
    } else if v == 5 {
        Some(ProceduralBoneType::Jiggle)
    } else {
        None
    }
}

impl ProceduralBoneType {
    /// The tag a `proc_type` field selects, if any.
    pub fn from_raw(v: i32) -> (r: Option<ProceduralBoneType>)
        ensures
            r == spec_proc_type(v),
    {
        if v == 1 {
            Some(ProceduralBoneType::AxisInterp)
        } else if v == 2 {
            Some(ProceduralBoneType::QuaternionInterp)
        } else if v == 3 {
            Some(ProceduralBoneType::AiMatBone)
        } else if v == 4 {
            Some(ProceduralBoneType::AiMatAttach)
        } else if v == 5 {
            Some(ProceduralBoneType::Jiggle)
        } else {
            None
        }
    }
}

/// An axis-interpolation rule: six positions and six orientations, one
/// per half-axis.
#[derive(Debug, Clone, Copy, PartialEq, Eq)]
pub struct AxisInterpBone {
    pub control: i32,
    pub axis: i32,
    pub position: [Vector; 6],
    pub quaternion: [Quaternion; 6],
}

/// A quaternion-interpolation rule.
#[derive(Debug, Clone, Copy, PartialEq, Eq, Structural)]
pub struct QuaternionInterpBone {
    /// An IEEE-754 single-precision bit pattern.
    pub inverse_tolerance: u32,
    pub trigger: Quaternion,
    pub position: Vector,
    pub quaternion: Quaternion,
}

/// An aim-at rule (at a bone or at an attachment).
#[derive(Debug, Clone, Copy, PartialEq, Eq, Structural)]
pub struct AiMatBone {
    pub parent: i32,
    pub aim: i32,
    pub aim_vector: Vector,
    pub up_vector: Vector,
    pub base_position: Vector,
}

/// A jiggle-physics rule; every scalar is an IEEE-754 bit pattern.
#[derive(Debug, Clone, Copy, PartialEq, Eq)]
pub struct JiggleBone {
    pub flags: JiggleBoneFlags,
    pub length: u32,
    pub tip_mass: u32,
    pub yaw_stiffness: u32,
    pub yaw_damping: u32,
    pub pitch_stiffness: u32,
    pub pitch_damping: u32,
    pub along_stiffness: u32,
    pub along_damping: u32,
    pub angle_limit: u32,
    pub min_yaw: u32,
    pub max_yaw: u32,
    pub yaw_friction: u32,
    pub yaw_bound: u32,
    pub min_pitch: u32,
    pub max_pitch: u32,
    pub pitch_friction: u32,
    pub pitch_bounce: u32,
    pub base_mass: u32,
    pub base_stiffness: u32,
    pub base_damping: u32,
    pub base_min_left: u32,
    pub base_max_left: u32,
    pub base_left_friction: u32,
    pub base_min_up: u32,
    pub base_max_up: u32,
    pub base_up_friction: u32,
    pub base_min_forward: u32,
    pub base_max_forward: u32,
    pub base_forward_friction: u32,
    pub boing_impact_speed: u32,
    pub boing_impact_angle: u32,
    pub boing_damping_rate: u32,
    pub boing_frequency: u32,
    pub boing_amplitute: u32,
}

/// A bone's procedural rule, tagged by [`ProceduralBoneType`].
#[derive(Debug, Clone, Copy, PartialEq, Eq)]
pub enum ProceduralBone {
    AxisInterp(AxisInterpBone),
    QuaternionInterp(QuaternionInterpBone),
    AiMatBone(AiMatBone),
    AiMatAttach(AiMatBone),
    Jiggle(JiggleBone),
}

/// One parsed bone.
#[derive(Debug, Clone, PartialEq, Eq)]
pub struct Bone {
    pub name: String,
    /// The index of the parent bone, −1 for a root.
    pub parent: i32,
    pub bone_controller: [i32; 6],
    pub pos: Vector,
    pub quaternion: Quaternion,
    pub rot: RadianEuler,
    pub pos_scale: Vector,
    pub rot_scale: Vector,
    pub pose_to_bone: Transform3x4,
    pub q_alignment: Quaternion,
    pub flags: BoneFlags,
    pub procedural_rules: Option<ProceduralBone>,
    pub physics_bone: i32,
    pub surface_prop: String,
    pub contents: ContentFlags,
}

/// The byte size of each procedural-rule payload.
pub open spec fn proc_size(t: ProceduralBoneType) -> int {
    match t {
        ProceduralBoneType::AxisInterp => 176,
        ProceduralBoneType::QuaternionInterp => 48,
        ProceduralBoneType::AiMatBone => 44,
        ProceduralBoneType::AiMatAttach => 44,
        ProceduralBoneType::Jiggle => 140,
    }
}

/// The axis-interpolation payload stored at byte offset `off`.
pub open spec fn spec_axis_interp(s: Seq<u8>, off: int) -> AxisInterpBone {
    AxisInterpBone {
        control: le_i32(s, off),
        axis: le_i32(s, off + 4),
        position: [
            spec_vector(s, off + 8),
            spec_vector(s, off + 20),
            spec_vector(s, off + 32),
            spec_vector(s, off + 44),
            spec_vector(s, off + 56),
            spec_vector(s, off + 68),
        ],
        quaternion: [
            spec_quaternion(s, off + 80),
            spec_quaternion(s, off + 96),
            spec_quaternion(s, off + 112),
            spec_quaternion(s, off + 128),
            spec_quaternion(s, off + 144),
            spec_quaternion(s, off + 160),
        ],
    }
}

/// The quaternion-interpolation payload stored at byte offset `off`.
pub open spec fn spec_quat_interp(s: Seq<u8>, off: int) -> QuaternionInterpBone {
    QuaternionInterpBone {
        inverse_tolerance: le32(s, off),
        trigger: spec_quaternion(s, off + 4),
        position: spec_vector(s, off + 20),
        quaternion: spec_quaternion(s, off + 32),
    }
}

/// The aim-at payload stored at byte offset `off`.
pub open spec fn spec_aimat(s: Seq<u8>, off: int) -> AiMatBone {
    AiMatBone {
        parent: le_i32(s, off),
        aim: le_i32(s, off + 4),
        aim_vector: spec_vector(s, off + 8),
        up_vector: spec_vector(s, off + 20),
        base_position: spec_vector(s, off + 32),
    }
}

/// The jiggle payload stored at byte offset `off`.
pub open spec fn spec_jiggle(s: Seq<u8>, off: int) -> JiggleBone {
    JiggleBone {
        flags: JiggleBoneFlags(le32(s, off)),
        length: le32(s, off + 4),
        tip_mass: le32(s, off + 8),
        yaw_stiffness: le32(s, off + 12),
        yaw_damping: le32(s, off + 16),
        pitch_stiffness: le32(s, off + 20),
        pitch_damping: le32(s, off + 24),
        along_stiffness: le32(s, off + 28),
        along_damping: le32(s, off + 32),
        angle_limit: le32(s, off + 36),
        min_yaw: le32(s, off + 40),
        max_yaw: le32(s, off + 44),
        yaw_friction: le32(s, off + 48),
        yaw_bound: le32(s, off + 52),
        min_pitch: le32(s, off + 56),
        max_pitch: le32(s, off + 60),
        pitch_friction: le32(s, off + 64),
        pitch_bounce: le32(s, off + 68),
        base_mass: le32(s, off + 72),
        base_stiffness: le32(s, off + 76),
        base_damping: le32(s, off + 80),
        base_min_left: le32(s, off + 84),
        base_max_left: le32(s, off + 88),
        base_left_friction: le32(s, off + 92),
        base_min_up: le32(s, off + 96),
        base_max_up: le32(s, off + 100),
        base_up_friction: le32(s, off + 104),
        base_min_forward: le32(s, off + 108),
        base_max_forward: le32(s, off + 112),
        base_forward_friction: le32(s, off + 116),
        boing_impact_speed: le32(s, off + 120),
        boing_impact_angle: le32(s, off + 124),
        boing_damping_rate: le32(s, off + 128),
        boing_frequency: le32(s, off + 132),
        boing_amplitute: le32(s, off + 136),
    }
}

/// The procedural rule stored at byte offset `off`, under tag `t`.
pub open spec fn spec_proc_rule(t: ProceduralBoneType, s: Seq<u8>, off: int) -> ProceduralBone {
    match t {
        ProceduralBoneType::AxisInterp => ProceduralBone::AxisInterp(spec_axis_interp(s, off)),
        ProceduralBoneType::QuaternionInterp => ProceduralBone::QuaternionInterp(
            spec_quat_interp(s, off),
        ),
        ProceduralBoneType::AiMatBone => ProceduralBone::AiMatBone(spec_aimat(s, off)),
        ProceduralBoneType::AiMatAttach => ProceduralBone::AiMatAttach(spec_aimat(s, off)),
        ProceduralBoneType::Jiggle => ProceduralBone::Jiggle(spec_jiggle(s, off)),
    }
}

/// The fault of reading the bone record at `off` with its strings and
/// procedural rule, if any: the fixed record, then the procedural payload
/// (whose offset is checked whenever it is non-zero, whatever the tag),
/// then the name string, then the surface-property string.
pub open spec fn bone_fault(s: Seq<u8>, off: int) -> Option<ModelError> {
    if s.len() - off < BONE_SIZE {
        Some(ModelError::Eof(BONE_SIZE))
    } else {
        let proc_index = le_i32(s, off + 168);
        let tag = spec_proc_type(le_i32(s, off + 164));
        let rel = extend_signed(proc_index);
        if proc_index != 0 && rel > s.len() - off {
            Some(ModelError::OutOfBounds { data: "bone procedural rule", offset: rel as usize })
        } else if proc_index != 0 && tag is Some && s.len() - (off + rel) < proc_size(
            tag.unwrap(),
        ) {
            Some(ModelError::Eof(proc_size(tag.unwrap()) as usize))
        } else if string_rel_fault(s, off, le_i32(s, off), false) is Some {
            string_rel_fault(s, off, le_i32(s, off), false)
        } else if string_rel_fault(s, off, le_i32(s, off + 176), false) is Some {
            string_rel_fault(s, off, le_i32(s, off + 176), false)
        } else {
            None
        }
    }
}

/// Whether `b` is the bone record stored at byte offset `off`.
pub open spec fn bone_matches(b: Bone, s: Seq<u8>, off: int) -> bool {
    let proc_index = le_i32(s, off + 168);
    let tag = spec_proc_type(le_i32(s, off + 164));
    &&& b.name@ == string_rel_value(s, off, le_i32(s, off), false)
    &&& b.parent == le_i32(s, off + 4)
    &&& b.bone_controller == [
        le_i32(s, off + 8),
        le_i32(s, off + 12),
        le_i32(s, off + 16),
        le_i32(s, off + 20),
        le_i32(s, off + 24),
        le_i32(s, off + 28),
    ]
    &&& b.pos == spec_vector(s, off + 32)
    &&& b.quaternion == spec_quaternion(s, off + 44)
    &&& b.rot == spec_euler(s, off + 60)
    &&& b.pos_scale == spec_vector(s, off + 72)
    &&& b.rot_scale == spec_vector(s, off + 84)
    &&& transform_matches(b.pose_to_bone, s, off + 96)
    &&& b.q_alignment == spec_quaternion(s, off + 144)
    &&& b.flags == BoneFlags(le32(s, off + 160))
    &&& b.procedural_rules == if proc_index != 0 && tag is Some {
        Some(spec_proc_rule(tag.unwrap(), s, off + extend_signed(proc_index)))
    } else {
        Option::<ProceduralBone>::None
    }
    &&& b.physics_bone == le_i32(s, off + 172)
    &&& b.surface_prop@ == string_rel_value(s, off, le_i32(s, off + 176), false)
    &&& b.contents == ContentFlags(le32(s, off + 180))
}

/// Read the axis-interpolation payload at `off`.
fn read_axis_interp(data: &[u8], off: usize) -> (r: AxisInterpBone)
    requires
        off + 176 <= data@.len(),
    ensures
        r == spec_axis_interp(data@, off as int),
{
    let len = data.len();
    AxisInterpBone {
        control: get_i32(data, off),
        axis: get_i32(data, off + 4),
        position: [
            get_vector(data, off + 8),
            get_vector(data, off + 20),
            get_vector(data, off + 32),
            get_vector(data, off + 44),
            get_vector(data, off + 56),
            get_vector(data, off + 68),
        ],
        quaternion: [
            get_quaternion(data, off + 80),
            get_quaternion(data, off + 96),
            get_quaternion(data, off + 112),
            get_quaternion(data, off + 128),
            get_quaternion(data, off + 144),
            get_quaternion(data, off + 160),
        ],
    }
}

/// Read the jiggle payload at `off`.
fn read_jiggle(data: &[u8], off: usize) -> (r: JiggleBone)
    requires
        off + 140 <= data@.len(),
    ensures
        r == spec_jiggle(data@, off as int),
{
    let len = data.len();
    JiggleBone {
        flags: JiggleBoneFlags(get_u32(data, off)),
        length: get_u32(data, off + 4),
        tip_mass: get_u32(data, off + 8),
        yaw_stiffness: get_u32(data, off + 12),
        yaw_damping: get_u32(data, off + 16),
        pitch_stiffness: get_u32(data, off + 20),
        pitch_damping: get_u32(data, off + 24),
        along_stiffness: get_u32(data, off + 28),
        along_damping: get_u32(data, off + 32),
        angle_limit: get_u32(data, off + 36),
        min_yaw: get_u32(data, off + 40),
        max_yaw: get_u32(data, off + 44),
        yaw_friction: get_u32(data, off + 48),
        yaw_bound: get_u32(data, off + 52),
        min_pitch: get_u32(data, off + 56),
        max_pitch: get_u32(data, off + 60),
        pitch_friction: get_u32(data, off + 64),
        pitch_bounce: get_u32(data, off + 68),
        base_mass: get_u32(data, off + 72),
        base_stiffness: get_u32(data, off + 76),
        base_damping: get_u32(data, off + 80),
        base_min_left: get_u32(data, off + 84),
        base_max_left: get_u32(data, off + 88),
        base_left_friction: get_u32(data, off + 92),
        base_min_up: get_u32(data, off + 96),
        base_max_up: get_u32(data, off + 100),
        base_up_friction: get_u32(data, off + 104),
        base_min_forward: get_u32(data, off + 108),
        base_max_forward: get_u32(data, off + 112),
        base_forward_friction: get_u32(data, off + 116),
        boing_impact_speed: get_u32(data, off + 120),
        boing_impact_angle: get_u32(data, off + 124),
        boing_damping_rate: get_u32(data, off + 128),
        boing_frequency: get_u32(data, off + 132),
        boing_amplitute: get_u32(data, off + 136),
    }
}

/// Read the bone record at `off`: the fixed fields, the procedural rule
/// it points at, and its two strings.
pub fn read_bone(data: &[u8], off: usize) -> (r: Result<Bone, ModelError>)
    requires
        off <= data@.len(),
    ensures
        match r {
            Ok(b) => bone_fault(data@, off as int) is None && bone_matches(b, data@, off as int),
            Err(e) => bone_fault(data@, off as int) == Some(e),
        },
{
    let len = data.len();
    if len - off < BONE_SIZE {
        return Err(ModelError::Eof(BONE_SIZE));
    }
    let proc_type = get_i32(data, off + 164);
    let proc_index = get_i32(data, off + 168);
    let tag = ProceduralBoneType::from_raw(proc_type);

    let procedural_rules: Option<ProceduralBone> = if proc_index != 0 {
        let rel = extend_to_usize(proc_index);
        if rel > len - off {
            return Err(ModelError::OutOfBounds { data: "bone procedural rule", offset: rel });
        }
        let proc_off = off + rel;
        match tag {
            Some(t) => {
                let size: usize = match t {
                    ProceduralBoneType::AxisInterp => 176,
                    ProceduralBoneType::QuaternionInterp => 48,
                    ProceduralBoneType::AiMatBone => 44,
                    ProceduralBoneType::AiMatAttach => 44,
                    ProceduralBoneType::Jiggle => 140,
                };
                if len - proc_off < size {
                    return Err(ModelError::Eof(size));
                }
                Some(
                    match t {
                        ProceduralBoneType::AxisInterp => ProceduralBone::AxisInterp(
                            read_axis_interp(data, proc_off),
                        ),
                        ProceduralBoneType::QuaternionInterp => ProceduralBone::QuaternionInterp(
                            QuaternionInterpBone {
                                inverse_tolerance: get_u32(data, proc_off),
                                trigger: get_quaternion(data, proc_off + 4),
                                position: get_vector(data, proc_off + 20),
                                quaternion: get_quaternion(data, proc_off + 32),
                            },
                        ),
                        ProceduralBoneType::AiMatBone => ProceduralBone::AiMatBone(
                            read_aimat(data, proc_off),
                        ),
                        ProceduralBoneType::AiMatAttach => ProceduralBone::AiMatAttach(
                            read_aimat(data, proc_off),
                        ),
                        ProceduralBoneType::Jiggle => ProceduralBone::Jiggle(
                            read_jiggle(data, proc_off),
                        ),
                    },
                )
            },
            None => None,
        }
    } else {
        None
    };

    let name = match crate::reader::read_string_rel(data, off, get_i32(data, off), false) {
        Ok(v) => v,
        Err(e) => {
            return Err(e);
        },
    };
    let surface_prop = match crate::reader::read_string_rel(
        data,
        off,
        get_i32(data, off + 176),
        false,
    ) {
        Ok(v) => v,
        Err(e) => {
            return Err(e);
        },
    };

    Ok(
        Bone {
            name,
            parent: get_i32(data, off + 4),
            bone_controller: [
                get_i32(data, off + 8),
                get_i32(data, off + 12),
                get_i32(data, off + 16),
                get_i32(data, off + 20),
                get_i32(data, off + 24),
                get_i32(data, off + 28),
            ],
            pos: get_vector(data, off + 32),
            quaternion: get_quaternion(data, off + 44),
            rot: get_euler(data, off + 60),
            pos_scale: get_vector(data, off + 72),
            rot_scale: get_vector(data, off + 84),
            pose_to_bone: get_transform(data, off + 96),
            q_alignment: get_quaternion(data, off + 144),
            flags: BoneFlags(get_u32(data, off + 160)),
            procedural_rules,
            physics_bone: get_i32(data, off + 172),
            surface_prop,
            contents: ContentFlags(get_u32(data, off + 180)),
        },
    )
}

/// Read the aim-at payload at `off`.
fn read_aimat(data: &[u8], off: usize) -> (r: AiMatBone)
    requires
        off + 44 <= data@.len(),
    ensures
        r == spec_aimat(data@, off as int),
{
    let len = data.len();
    AiMatBone {
        parent: get_i32(data, off),
        aim: get_i32(data, off + 4),
        aim_vector: get_vector(data, off + 8),
        up_vector: get_vector(data, off + 20),
        base_position: get_vector(data, off + 32),
    }
}

} // verus!
