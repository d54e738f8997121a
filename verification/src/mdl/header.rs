//! The 408-byte primary header of the model definition file and the
//! optional secondary header.

use vstd::prelude::*;

use crate::error::ModelError;
use crate::math::{get_vector, spec_vector, Vector};
use crate::reader::{
    extend_signed, get_i32, get_u32, get_u8, index_range, le32, le_i32, read_bytes, IndexRange,
};

verus! {

/// The byte size of the primary header.
pub const STUDIO_HEADER_SIZE: usize = 408;

/// The byte size of the secondary header.
pub const STUDIO_HEADER2_SIZE: usize = 256;

/// The byte size of one bone record.
pub const BONE_SIZE: usize = 216;

/// The byte size of one texture record.
pub const TEXTURE_SIZE: usize = 64;

/// The byte size of one body-part record.
pub const BODY_PART_SIZE: usize = 16;

/// The byte size of one model record.
pub const MODEL_SIZE: usize = 148;

/// The byte size of one mesh record.
pub const MESH_SIZE: usize = 116;

/// The byte size of one animation-description record.
pub const ANIMATION_DESCRIPTION_SIZE: usize = 100;

/// The byte size of one animation-block record.
pub const ANIMATION_BLOCK_SIZE: usize = 8;

/// The byte size of one pose-parameter record.
pub const POSE_PARAMETER_SIZE: usize = 20;

/// The byte size of one attachment record.
pub const ATTACHMENT_SIZE: usize = 92;

/// The byte size of one hitbox-set record.
pub const HITBOX_SET_SIZE: usize = 12;

/// The byte size of one hitbox record.
pub const BOUNDING_BOX_SIZE: usize = 68;

/// The magic number at the start of a model definition file ("IDST").
pub const FILETYPE_ID: i32 = 0x54534449;

/// The format version this crate reads.
pub const MDL_VERSION: i32 = 48;

/// Whole-model flags (bit field).
#[derive(Debug, Clone, Copy, PartialEq, Eq, Structural)]
pub struct ModelFlags(pub u32);

/// The primary file header. Floating-point fields carry IEEE-754 bit
/// patterns.
#[derive(Debug, Clone, PartialEq, Eq)]
pub struct StudioHeader {
    pub id: i32,
    pub version: i32,
    pub checksum: [u8; 4],
    /// The 64-byte fixed name field, undecoded.
    pub name: Vec<u8>,
    pub data_length: i32,
    pub eye_position: Vector,
    pub illumination_position: Vector,
    pub hull_min: Vector,
    pub hull_max: Vector,
    pub view_bb_min: Vector,
    pub view_bb_max: Vector,
    pub flags: ModelFlags,
    pub bone_count: i32,
    pub bone_offset: i32,
    pub bone_controller_count: i32,
    pub bone_controller_offset: i32,
    pub hitbox_count: i32,
    pub hitbox_offset: i32,
    pub local_animation_count: i32,
    pub local_animation_offset: i32,
    pub local_seq_count: i32,
    pub local_seq_offset: i32,
    pub activity_list_version: i32,
    pub events_indexed: i32,
    pub texture_count: i32,
    pub texture_offset: i32,
    pub texture_dir_count: i32,
    pub texture_dir_offset: i32,
    pub skin_reference_count: i32,
    pub skin_family_count: i32,
    pub skin_reference_offset: i32,
    pub body_part_count: i32,
    pub body_part_offset: i32,
    pub attachment_count: i32,
    pub attachment_offset: i32,
    pub local_node_count: i32,
    pub local_node_index: i32,
    pub local_node_name_index: i32,
    pub flex_desc_count: i32,
    pub flex_desc_index: i32,
    pub flex_controller_count: i32,
    pub flex_controller_index: i32,
    pub flex_rules_count: i32,
    pub flex_rules_index: i32,
    pub ik_chain_count: i32,
    pub ik_chain_index: i32,
    pub mouths_count: i32,
    pub mouths_index: i32,
    pub local_pose_param_count: i32,
    pub local_pose_param_index: i32,
    pub surface_prop_index: i32,
    pub key_value_index: i32,
    pub key_value_count: i32,
    pub ik_lock_count: i32,
    pub ik_lock_index: i32,
    /// An IEEE-754 single-precision bit pattern.
    pub mass: u32,
    pub contents: i32,
    pub include_model_count: i32,
    pub include_model_index: i32,
    pub virtual_model: i32,
    pub anim_blocks_name_index: i32,
    pub anim_blocks_count: i32,
    pub anim_blocks_index: i32,
    pub anim_block_model: i32,
    pub bone_table_name_index: i32,
    pub vertex_base: i32,
    pub offset_base: i32,
    pub directional_dot_product: u8,
    pub root_lod: u8,
    pub num_allowed_root_lods: u8,
    pub flex_controller_ui_count: i32,
    pub flex_controller_ui_index: i32,
    /// An IEEE-754 single-precision bit pattern.
    pub vert_anim_fixed_point_scale: u32,
    pub studio_hdr2_index: i32,
}

/// Whether `h` is the primary header stored at the start of `s`.
pub open spec fn studio_header_matches(h: StudioHeader, s: Seq<u8>) -> bool {
    &&& h.id == le_i32(s, 0)
    &&& h.version == le_i32(s, 4)
    &&& h.checksum == [s[8], s[9], s[10], s[11]]
    &&& h.name@ == s.subrange(12, 76)
    &&& h.data_length == le_i32(s, 76)
    &&& h.eye_position == spec_vector(s, 80)
    &&& h.illumination_position == spec_vector(s, 92)
    &&& h.hull_min == spec_vector(s, 104)
    &&& h.hull_max == spec_vector(s, 116)
    &&& h.view_bb_min == spec_vector(s, 128)
    &&& h.view_bb_max == spec_vector(s, 140)
    &&& h.flags == ModelFlags(le32(s, 152))
    &&& h.bone_count == le_i32(s, 156)
    &&& h.bone_offset == le_i32(s, 160)
    &&& h.bone_controller_count == le_i32(s, 164)
    &&& h.bone_controller_offset == le_i32(s, 168)
    &&& h.hitbox_count == le_i32(s, 172)
    &&& h.hitbox_offset == le_i32(s, 176)
    &&& h.local_animation_count == le_i32(s, 180)
    &&& h.local_animation_offset == le_i32(s, 184)
    &&& h.local_seq_count == le_i32(s, 188)
    &&& h.local_seq_offset == le_i32(s, 192)
    &&& h.activity_list_version == le_i32(s, 196)
    &&& h.events_indexed == le_i32(s, 200)
    &&& h.texture_count == le_i32(s, 204)
    &&& h.texture_offset == le_i32(s, 208)
    &&& h.texture_dir_count == le_i32(s, 212)
    &&& h.texture_dir_offset == le_i32(s, 216)
    &&& h.skin_reference_count == le_i32(s, 220)
    &&& h.skin_family_count == le_i32(s, 224)
    &&& h.skin_reference_offset == le_i32(s, 228)
    &&& h.body_part_count == le_i32(s, 232)
    &&& h.body_part_offset == le_i32(s, 236)
    &&& h.attachment_count == le_i32(s, 240)
    &&& h.attachment_offset == le_i32(s, 244)
    &&& h.local_node_count == le_i32(s, 248)
    &&& h.local_node_index == le_i32(s, 252)
    &&& h.local_node_name_index == le_i32(s, 256)
    &&& h.flex_desc_count == le_i32(s, 260)
    &&& h.flex_desc_index == le_i32(s, 264)
    &&& h.flex_controller_count == le_i32(s, 268)
    &&& h.flex_controller_index == le_i32(s, 272)
    &&& h.flex_rules_count == le_i32(s, 276)
    &&& h.flex_rules_index == le_i32(s, 280)
    &&& h.ik_chain_count == le_i32(s, 284)
    &&& h.ik_chain_index == le_i32(s, 288)
    &&& h.mouths_count == le_i32(s, 292)
    &&& h.mouths_index == le_i32(s, 296)
    &&& h.local_pose_param_count == le_i32(s, 300)
    &&& h.local_pose_param_index == le_i32(s, 304)
    &&& h.surface_prop_index == le_i32(s, 308)
    &&& h.key_value_index == le_i32(s, 312)
    &&& h.key_value_count == le_i32(s, 316)
    &&& h.ik_lock_count == le_i32(s, 320)
    &&& h.ik_lock_index == le_i32(s, 324)
    &&& h.mass == le32(s, 328)
    &&& h.contents == le_i32(s, 332)
    &&& h.include_model_count == le_i32(s, 336)
    &&& h.include_model_index == le_i32(s, 340)
    &&& h.virtual_model == le_i32(s, 344)
    &&& h.anim_blocks_name_index == le_i32(s, 348)
    &&& h.anim_blocks_count == le_i32(s, 352)
    &&& h.anim_blocks_index == le_i32(s, 356)
    &&& h.anim_block_model == le_i32(s, 360)
    &&& h.bone_table_name_index == le_i32(s, 364)
    &&& h.vertex_base == le_i32(s, 368)
    &&& h.offset_base == le_i32(s, 372)
    &&& h.directional_dot_product == s[376]
    &&& h.root_lod == s[377]
    &&& h.num_allowed_root_lods == s[378]
    &&& h.flex_controller_ui_count == le_i32(s, 384)
    &&& h.flex_controller_ui_index == le_i32(s, 388)
    &&& h.vert_anim_fixed_point_scale == le32(s, 392)
    &&& h.studio_hdr2_index == le_i32(s, 400)
}

impl StudioHeader {
    /// Read the primary header at the start of the file.
    pub fn read(data: &[u8]) -> (r: Result<StudioHeader, ModelError>)
        ensures
            match r {
                Ok(h) => data@.len() >= STUDIO_HEADER_SIZE && studio_header_matches(h, data@),
                Err(e) => data@.len() < STUDIO_HEADER_SIZE && e == ModelError::Eof(
                    STUDIO_HEADER_SIZE,
                ),
            },
    {
        if data.len() < STUDIO_HEADER_SIZE {
            return Err(ModelError::Eof(STUDIO_HEADER_SIZE));
        }
        Ok(
            StudioHeader {
                id: get_i32(data, 0),
                version: get_i32(data, 4),
                checksum: [get_u8(data, 8), get_u8(data, 9), get_u8(data, 10), get_u8(data, 11)],
                name: read_bytes(data, 12, 64),
                data_length: get_i32(data, 76),
                eye_position: get_vector(data, 80),
                illumination_position: get_vector(data, 92),
                hull_min: get_vector(data, 104),
                hull_max: get_vector(data, 116),
                view_bb_min: get_vector(data, 128),
                view_bb_max: get_vector(data, 140),
                flags: ModelFlags(get_u32(data, 152)),
                bone_count: get_i32(data, 156),
                bone_offset: get_i32(data, 160),
                bone_controller_count: get_i32(data, 164),
                bone_controller_offset: get_i32(data, 168),
                hitbox_count: get_i32(data, 172),
                hitbox_offset: get_i32(data, 176),
                local_animation_count: get_i32(data, 180),
                local_animation_offset: get_i32(data, 184),
                local_seq_count: get_i32(data, 188),
                local_seq_offset: get_i32(data, 192),
                activity_list_version: get_i32(data, 196),
                events_indexed: get_i32(data, 200),
                texture_count: get_i32(data, 204),
                texture_offset: get_i32(data, 208),
                texture_dir_count: get_i32(data, 212),
                texture_dir_offset: get_i32(data, 216),
                skin_reference_count: get_i32(data, 220),
                skin_family_count: get_i32(data, 224),
                skin_reference_offset: get_i32(data, 228),
                body_part_count: get_i32(data, 232),
                body_part_offset: get_i32(data, 236),
                attachment_count: get_i32(data, 240),
                attachment_offset: get_i32(data, 244),
                local_node_count: get_i32(data, 248),
                local_node_index: get_i32(data, 252),
                local_node_name_index: get_i32(data, 256),
                flex_desc_count: get_i32(data, 260),
                flex_desc_index: get_i32(data, 264),
                flex_controller_count: get_i32(data, 268),
                flex_controller_index: get_i32(data, 272),
                flex_rules_count: get_i32(data, 276),
                flex_rules_index: get_i32(data, 280),
                ik_chain_count: get_i32(data, 284),
                ik_chain_index: get_i32(data, 288),
                mouths_count: get_i32(data, 292),
                mouths_index: get_i32(data, 296),
                local_pose_param_count: get_i32(data, 300),
                local_pose_param_index: get_i32(data, 304),
                surface_prop_index: get_i32(data, 308),
                key_value_index: get_i32(data, 312),
                key_value_count: get_i32(data, 316),
                ik_lock_count: get_i32(data, 320),
                ik_lock_index: get_i32(data, 324),
                mass: get_u32(data, 328),
                contents: get_i32(data, 332),
                include_model_count: get_i32(data, 336),
                include_model_index: get_i32(data, 340),
                virtual_model: get_i32(data, 344),
                anim_blocks_name_index: get_i32(data, 348),
                anim_blocks_count: get_i32(data, 352),
                anim_blocks_index: get_i32(data, 356),
                anim_block_model: get_i32(data, 360),
                bone_table_name_index: get_i32(data, 364),
                vertex_base: get_i32(data, 368),
                offset_base: get_i32(data, 372),
                directional_dot_product: get_u8(data, 376),
                root_lod: get_u8(data, 377),
                num_allowed_root_lods: get_u8(data, 378),
                flex_controller_ui_count: get_i32(data, 384),
                flex_controller_ui_index: get_i32(data, 388),
                vert_anim_fixed_point_scale: get_u32(data, 392),
                studio_hdr2_index: get_i32(data, 400),
            },
        )
    }

    /// The offset of the secondary header, where one is present.
    pub fn header2_index(&self) -> (r: Option<usize>)
        ensures
            match r {
                Some(v) => self.studio_hdr2_index > 0 && v == self.studio_hdr2_index,
                None => self.studio_hdr2_index <= 0,
            },
    {
        if self.studio_hdr2_index > 0 {
            Some(self.studio_hdr2_index as usize)
        } else {
            None
        }
    }

    /// The offsets of the bone records.
    pub fn bone_indexes(&self) -> (r: IndexRange)
        ensures
            r.base as int == extend_signed(self.bone_offset),
            r.count == clamp_count(self.bone_count),
            r.stride == BONE_SIZE,
    {
        index_range(self.bone_offset, self.bone_count, BONE_SIZE)
    }

    /// The offsets of the bone-controller records.
    pub fn bone_controller_indexes(&self) -> (r: IndexRange)
        ensures
            r.base as int == extend_signed(self.bone_controller_offset),
            r.count == clamp_count(self.bone_controller_count),
            r.stride == 1,
    {
        index_range(self.bone_controller_offset, self.bone_controller_count, 1)
    }

    /// The offsets of the hitbox-set records.
    pub fn hitbox_indexes(&self) -> (r: IndexRange)
        ensures
            r.base as int == extend_signed(self.hitbox_offset),
            r.count == clamp_count(self.hitbox_count),
            r.stride == HITBOX_SET_SIZE,
    {
        index_range(self.hitbox_offset, self.hitbox_count, HITBOX_SET_SIZE)
    }

    /// The offsets of the animation-description records.
    pub fn local_animation_indexes(&self) -> (r: IndexRange)
        ensures
            r.base as int == extend_signed(self.local_animation_offset),
            r.count == clamp_count(self.local_animation_count),
            r.stride == ANIMATION_DESCRIPTION_SIZE,
    {
        index_range(
            self.local_animation_offset,
            self.local_animation_count,
            ANIMATION_DESCRIPTION_SIZE,
        )
    }

    /// The offsets of the sequence records.
    pub fn local_sequence_indexes(&self) -> (r: IndexRange)
        ensures
            r.base as int == extend_signed(self.local_seq_offset),
            r.count == clamp_count(self.local_seq_count),
            r.stride == 1,
    {
        index_range(self.local_seq_offset, self.local_seq_count, 1)
    }

    /// The offsets of the texture records.
    pub fn texture_indexes(&self) -> (r: IndexRange)
        ensures
            r.base as int == extend_signed(self.texture_offset),
            r.count == clamp_count(self.texture_count),
            r.stride == TEXTURE_SIZE,
    {
        index_range(self.texture_offset, self.texture_count, TEXTURE_SIZE)
    }

    /// The offsets of the texture-directory offsets (one 32-bit offset
    /// each).
    pub fn texture_dir_indexes(&self) -> (r: IndexRange)
        ensures
            r.base as int == extend_signed(self.texture_dir_offset),
            r.count == clamp_count(self.texture_dir_count),
            r.stride == 4,
    {
        index_range(self.texture_dir_offset, self.texture_dir_count, 4)
    }

    /// The offsets of the skin-table entries: one 16-bit entry for each
    /// (family, reference) pair.
    pub fn skin_reference_indexes(&self) -> (r: IndexRange)
        ensures
            r.base as int == extend_signed(self.skin_reference_offset),
            r.count as int == skin_table_len(
                self.skin_reference_count as int,
                self.skin_family_count as int,
            ),
            r.stride == 2,
    {
        let a = self.skin_reference_count;
        let b = self.skin_family_count;
        proof {
            assert((a as int) * (b as int) <= 0x4000_0000_0000_0000 && (a as int) * (b as int)
                >= -0x4000_0000_0000_0000) by (nonlinear_arith)
                requires
                    -0x8000_0000 <= a as int <= 0x7FFF_FFFF,
                    -0x8000_0000 <= b as int <= 0x7FFF_FFFF,
            ;
        }
        let product: i64 = (a as i64) * (b as i64);
        let count: usize = if product <= 0 {
            0
        } else {
            let p = product as u64;
            if p > usize::MAX as u64 {
                usize::MAX
            } else {
                p as usize
            }
        };
        let base = crate::reader::extend_to_usize(self.skin_reference_offset);
        IndexRange { base, count, stride: 2 }
    }

    /// The offsets of the body-part records.
    pub fn body_part_indexes(&self) -> (r: IndexRange)
        ensures
            r.base as int == extend_signed(self.body_part_offset),
            r.count == clamp_count(self.body_part_count),
            r.stride == BODY_PART_SIZE,
    {
        index_range(self.body_part_offset, self.body_part_count, BODY_PART_SIZE)
    }

    /// The offsets of the attachment records.
    pub fn attachment_indexes(&self) -> (r: IndexRange)
        ensures
            r.base as int == extend_signed(self.attachment_offset),
            r.count == clamp_count(self.attachment_count),
            r.stride == ATTACHMENT_SIZE,
    {
        index_range(self.attachment_offset, self.attachment_count, ATTACHMENT_SIZE)
    }

    /// The offsets of the local-node bytes.
    pub fn local_node_indexes(&self) -> (r: IndexRange)
        ensures
            r.base as int == extend_signed(self.local_node_index),
            r.count == clamp_count(self.local_node_count),
            r.stride == 1,
    {
        index_range(self.local_node_index, self.local_node_count, 1)
    }

    /// The offsets of the local-node name strings.
    pub fn local_node_name_indexes(&self) -> (r: IndexRange)
        ensures
            r.base as int == extend_signed(self.local_node_name_index),
            r.count == clamp_count(self.local_node_count),
            r.stride == 1,
    {
        index_range(self.local_node_name_index, self.local_node_count, 1)
    }

    /// The offsets of the flex-descriptor records.
    pub fn flex_descriptor_indexes(&self) -> (r: IndexRange)
        ensures
            r.base as int == extend_signed(self.flex_desc_index),
            r.count == clamp_count(self.flex_desc_count),
            r.stride == 1,
    {
        index_range(self.flex_desc_index, self.flex_desc_count, 1)
    }

    /// The offsets of the flex-controller records.
    pub fn flex_controller_indexes(&self) -> (r: IndexRange)
        ensures
            r.base as int == extend_signed(self.flex_controller_index),
            r.count == clamp_count(self.flex_controller_count),
            r.stride == 1,
    {
        index_range(self.flex_controller_index, self.flex_controller_count, 1)
    }

    /// The offsets of the flex-rule records.
    pub fn flex_rule_indexes(&self) -> (r: IndexRange)
        ensures
            r.base as int == extend_signed(self.flex_rules_index),
            r.count == clamp_count(self.flex_rules_count),
            r.stride == 1,
    {
        index_range(self.flex_rules_index, self.flex_rules_count, 1)
    }

    /// The offsets of the inverse-kinematics chain records.
    pub fn ik_chain_indexes(&self) -> (r: IndexRange)
        ensures
            r.base as int == extend_signed(self.ik_chain_index),
            r.count == clamp_count(self.ik_chain_count),
            r.stride == 1,
    {
        index_range(self.ik_chain_index, self.ik_chain_count, 1)
    }

    /// The offsets of the mouth records.
    pub fn mouth_indexes(&self) -> (r: IndexRange)
        ensures
            r.base as int == extend_signed(self.mouths_index),
            r.count == clamp_count(self.mouths_count),
            r.stride == 1,
    {
        index_range(self.mouths_index, self.mouths_count, 1)
    }

    /// The offsets of the pose-parameter records.
    pub fn local_pose_param_indexes(&self) -> (r: IndexRange)
        ensures
            r.base as int == extend_signed(self.local_pose_param_index),
            r.count == clamp_count(self.local_pose_param_count),
            r.stride == POSE_PARAMETER_SIZE,
    {
        index_range(self.local_pose_param_index, self.local_pose_param_count, POSE_PARAMETER_SIZE)
    }

    /// The offsets of the key-value bytes.
    pub fn key_value_indexes(&self) -> (r: IndexRange)
        ensures
            r.base as int == extend_signed(self.key_value_index),
            r.count == clamp_count(self.key_value_count),
            r.stride == 1,
    {
        index_range(self.key_value_index, self.key_value_count, 1)
    }

    /// The offsets of the inverse-kinematics lock records.
    pub fn ik_lock_indexes(&self) -> (r: IndexRange)
        ensures
            r.base as int == extend_signed(self.ik_lock_index),
            r.count == clamp_count(self.ik_lock_count),
            r.stride == 1,
    {
        index_range(self.ik_lock_index, self.ik_lock_count, 1)
    }

    /// The offsets of the include-model records.
    pub fn include_model_indexes(&self) -> (r: IndexRange)
        ensures
            r.base as int == extend_signed(self.include_model_index),
            r.count == clamp_count(self.include_model_count),
            r.stride == 1,
    {
        index_range(self.include_model_index, self.include_model_count, 1)
    }

    /// The offsets of the animation-block records.
    pub fn animation_block_indexes(&self) -> (r: IndexRange)
        ensures
            r.base as int == extend_signed(self.anim_blocks_index),
            r.count == clamp_count(self.anim_blocks_count),
            r.stride == ANIMATION_BLOCK_SIZE,
    {
        index_range(self.anim_blocks_index, self.anim_blocks_count, ANIMATION_BLOCK_SIZE)
    }

    /// The offsets of the animation-block name strings.
    pub fn animation_block_name_indexes(&self) -> (r: IndexRange)
        ensures
            r.base as int == extend_signed(self.anim_blocks_name_index),
            r.count == clamp_count(self.anim_blocks_count),
            r.stride == 1,
    {
        index_range(self.anim_blocks_name_index, self.anim_blocks_count, 1)
    }

    /// The offsets of the flex-controller-UI records.
    pub fn flex_controller_ui_indexes(&self) -> (r: IndexRange)
        ensures
            r.base as int == extend_signed(self.flex_controller_ui_index),
            r.count == clamp_count(self.flex_controller_ui_count),
            r.stride == 1,
    {
        index_range(self.flex_controller_ui_index, self.flex_controller_ui_count, 1)
    }
}

/// A record count as the table walk uses it: negative counts are empty.
pub open spec fn clamp_count(c: i32) -> int {
    if c >= 0 {
        c as int
    } else {
        0
    }
}

/// How many 16-bit entries the skin table holds: references × families,
/// empty when the product is not positive, clamped to the address space.
pub open spec fn skin_table_len(references: int, families: int) -> int {
    if references * families <= 0 {
        0
    } else if references * families > usize::MAX {
        usize::MAX as int
    } else {
        references * families
    }
}

/// The optional secondary header.
#[derive(Debug, Clone, Copy, PartialEq, Eq, Structural)]
pub struct StudioHeader2 {
    pub source_bone_transform_count: i32,
    pub source_bone_transform_index: i32,
    pub illumination_position_attachment_index: i32,
    /// An IEEE-754 single-precision bit pattern.
    pub fl_max_eye_deflection: u32,
    pub linear_bone_index: i32,
    pub sz_name_index: i32,
    pub bone_flex_driver_count: i32,
    pub bone_flex_driver_index: i32,
}

/// Whether `h` is the secondary header stored at byte offset `off`.
pub open spec fn studio_header2_matches(h: StudioHeader2, s: Seq<u8>, off: int) -> bool {
    &&& h.source_bone_transform_count == le_i32(s, off)
    &&& h.source_bone_transform_index == le_i32(s, off + 4)
    &&& h.illumination_position_attachment_index == le_i32(s, off + 8)
    &&& h.fl_max_eye_deflection == le32(s, off + 12)
    &&& h.linear_bone_index == le_i32(s, off + 16)
    &&& h.sz_name_index == le_i32(s, off + 20)
    &&& h.bone_flex_driver_count == le_i32(s, off + 24)
    &&& h.bone_flex_driver_index == le_i32(s, off + 28)
}

/// The fault of reading the secondary header at `off`, if any.
pub open spec fn studio_header2_fault(s: Seq<u8>, off: int) -> Option<ModelError> {
    if off > s.len() {
        Some(ModelError::OutOfBounds { data: "header2", offset: off as usize })
    } else if s.len() - off < STUDIO_HEADER2_SIZE {
        Some(ModelError::Eof(STUDIO_HEADER2_SIZE))
    } else {
        None
    }
}

impl StudioHeader2 {
    /// Read the secondary header at `off`.
    pub fn read(data: &[u8], off: usize) -> (r: Result<StudioHeader2, ModelError>)
        ensures
            match r {
                Ok(h) => studio_header2_fault(data@, off as int) is None && studio_header2_matches(
                    h,
                    data@,
                    off as int,
                ),
                Err(e) => studio_header2_fault(data@, off as int) == Some(e),
            },
    {
        let len = data.len();
        if off > len {
            return Err(ModelError::OutOfBounds { data: "header2", offset: off });
        }
        if len - off < STUDIO_HEADER2_SIZE {
            return Err(ModelError::Eof(STUDIO_HEADER2_SIZE));
        }
        Ok(
            StudioHeader2 {
                source_bone_transform_count: get_i32(data, off),
                source_bone_transform_index: get_i32(data, off + 4),
                illumination_position_attachment_index: get_i32(data, off + 8),
                fl_max_eye_deflection: get_u32(data, off + 12),
                linear_bone_index: get_i32(data, off + 16),
                sz_name_index: get_i32(data, off + 20),
                bone_flex_driver_count: get_i32(data, off + 24),
                bone_flex_driver_index: get_i32(data, off + 28),
            },
        )
    }

    /// The range of the source-bone-transform records.
    pub fn source_bone_transforms(&self) -> (r: IndexRange)
        ensures
            r.base as int == extend_signed(self.source_bone_transform_index),
            r.count == clamp_count(self.source_bone_transform_count),
            r.stride == 100,
    {
        index_range(self.source_bone_transform_index, self.source_bone_transform_count, 100)
    }

    /// The range of the bone-flex-driver records.
    pub fn bone_flex_drivers(&self) -> (r: IndexRange)
        ensures
            r.base as int == extend_signed(self.bone_flex_driver_index),
            r.count == clamp_count(self.bone_flex_driver_count),
            r.stride == 1,
    {
        index_range(self.bone_flex_driver_index, self.bone_flex_driver_count, 1)
    }
}

} // verus!
