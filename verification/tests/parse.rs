//! Parsing tests over small synthetic files that exercise every table the
//! three formats carry.

use vmdl::mdl::Mdl;
use vmdl::vtx::Vtx;
use vmdl::vvd::Vvd;
use vmdl::{Model, ModelError, StringError};

fn w_i32(b: &mut Vec<u8>, off: usize, v: i32) {
    let bytes = v.to_le_bytes();
    b[off..off + 4].copy_from_slice(&bytes);
}

fn w_u32(b: &mut Vec<u8>, off: usize, v: u32) {
    let bytes = v.to_le_bytes();
    b[off..off + 4].copy_from_slice(&bytes);
}

fn w_u16(b: &mut Vec<u8>, off: usize, v: u16) {
    let bytes = v.to_le_bytes();
    b[off..off + 2].copy_from_slice(&bytes);
}

fn w_f32(b: &mut Vec<u8>, off: usize, v: f32) {
    w_u32(b, off, v.to_bits());
}

fn w_str(b: &mut Vec<u8>, off: usize, s: &str) {
    b[off..off + s.len()].copy_from_slice(s.as_bytes());
}

/// A minimal but complete model definition file: one bone, one texture
/// with one search directory, a 1×1 skin table, one body part with one
/// model and one mesh, and one animation with a packed 48-bit rotation.
fn build_mdl() -> Vec<u8> {
    let bone_off = 408;
    let tex_off = bone_off + 216; // 624
    let dir_table_off = tex_off + 64; // 688
    let skin_off = dir_table_off + 4; // 692
    let bp_off = skin_off + 4; // 696
    let model_off = bp_off + 16; // 712
    let mesh_off = model_off + 148; // 860
    let anim_desc_off = mesh_off + 116; // 976
    let anim_rec_off = anim_desc_off + 100; // 1076
    let bone_name_off = anim_rec_off + 10; // 1086
    let tex_name_off = bone_name_off + 5; // 1091
    let dir_str_off = tex_name_off + 6; // 1097
    let anim_name_off = dir_str_off + 16; // 1113
    let att_off = anim_name_off + 5; // 1118
    let hbs_off = att_off + 92; // 1210
    let bbox_off = hbs_off + 12; // 1222
    let pose_off = bbox_off + 68; // 1290
    let att_name_off = pose_off + 20; // 1310
    let hbs_name_off = att_name_off + 7; // 1317
    let pose_name_off = hbs_name_off + 8; // 1325
    let total = pose_name_off + 4; // 1329

    let mut b = vec![0u8; total];
    // primary header
    w_i32(&mut b, 0, 0x54534449); // "IDST"
    w_i32(&mut b, 4, 48);
    w_str(&mut b, 12, "barrel01");
    w_i32(&mut b, 156, 1); // bone count
    w_i32(&mut b, 160, bone_off as i32);
    w_i32(&mut b, 180, 1); // animation count
    w_i32(&mut b, 184, anim_desc_off as i32);
    w_i32(&mut b, 204, 1); // texture count
    w_i32(&mut b, 208, tex_off as i32);
    w_i32(&mut b, 212, 1); // texture dir count
    w_i32(&mut b, 216, dir_table_off as i32);
    w_i32(&mut b, 220, 1); // skin references
    w_i32(&mut b, 224, 1); // skin families
    w_i32(&mut b, 228, skin_off as i32);
    w_i32(&mut b, 232, 1); // body parts
    w_i32(&mut b, 236, bp_off as i32);
    w_i32(&mut b, 172, 1); // hitbox set count
    w_i32(&mut b, 176, hbs_off as i32);
    w_i32(&mut b, 240, 1); // attachment count
    w_i32(&mut b, 244, att_off as i32);
    w_i32(&mut b, 300, 1); // pose parameter count
    w_i32(&mut b, 304, pose_off as i32);
    w_i32(&mut b, 308, tex_name_off as i32); // surface property
    w_i32(&mut b, 348, 404); // animation block source: empty string

    // bone
    w_i32(&mut b, bone_off, (bone_name_off - bone_off) as i32);
    w_i32(&mut b, bone_off + 4, -1); // root
    w_f32(&mut b, bone_off + 32, 1.5); // rest position x
    w_i32(&mut b, bone_off + 176, (tex_name_off - bone_off) as i32); // surface

    // texture
    w_i32(&mut b, tex_off, (tex_name_off - tex_off) as i32);

    // texture directory offset table (absolute offsets)
    w_u32(&mut b, dir_table_off, dir_str_off as u32);

    // skin table
    w_u16(&mut b, skin_off, 0);

    // body part -> model -> mesh
    w_i32(&mut b, bp_off + 4, 1); // model count
    w_i32(&mut b, bp_off + 12, 16); // models relative to the body part
    w_str(&mut b, model_off, "body");
    w_i32(&mut b, model_off + 72, 1); // mesh count
    w_i32(&mut b, model_off + 76, 148); // meshes relative to the model
    w_i32(&mut b, model_off + 80, 4); // vertex count
    w_i32(&mut b, model_off + 84, 0); // vertex byte offset
    w_i32(&mut b, mesh_off, 5); // material
    w_i32(&mut b, mesh_off + 12, 0); // mesh vertex offset

    // animation description and its single chain record
    w_i32(&mut b, anim_desc_off + 4, (anim_name_off - anim_desc_off) as i32);
    w_f32(&mut b, anim_desc_off + 8, 30.0);
    w_i32(&mut b, anim_desc_off + 16, 1); // frame count
    w_i32(&mut b, anim_desc_off + 52, 0); // animation block
    w_i32(&mut b, anim_desc_off + 56, 100); // chain offset (relative)
    b[anim_rec_off] = 0; // bone
    b[anim_rec_off + 1] = 0x02; // packed 48-bit rotation
    w_u16(&mut b, anim_rec_off + 2, 0); // end of chain
    // quaternion48: x = 0x8000, y = 0x8000, z = 0x6000 with the sign bit
    b[anim_rec_off + 4] = 0x00;
    b[anim_rec_off + 5] = 0x80;
    b[anim_rec_off + 6] = 0x00;
    b[anim_rec_off + 7] = 0x80;
    b[anim_rec_off + 8] = 0x00;
    b[anim_rec_off + 9] = 0xE0;

    // attachment
    w_i32(&mut b, att_off, (att_name_off - att_off) as i32);
    w_i32(&mut b, att_off + 8, 0); // local bone
    w_f32(&mut b, att_off + 12, 1.0); // first row of the local transform

    // hitbox set with one box
    w_i32(&mut b, hbs_off, (hbs_name_off - hbs_off) as i32);
    w_i32(&mut b, hbs_off + 4, 1);
    w_i32(&mut b, hbs_off + 8, (bbox_off - hbs_off) as i32);
    w_i32(&mut b, bbox_off, 0); // bone
    w_i32(&mut b, bbox_off + 4, 1); // group
    w_f32(&mut b, bbox_off + 8, -1.0); // box corners
    w_f32(&mut b, bbox_off + 20, 1.0);
    w_i32(&mut b, bbox_off + 32, (hbs_name_off - bbox_off) as i32);

    // pose parameter
    w_i32(&mut b, pose_off, (pose_name_off - pose_off) as i32);
    w_f32(&mut b, pose_off + 8, -1.0); // start
    w_f32(&mut b, pose_off + 12, 1.0); // end

    // strings
    w_str(&mut b, bone_name_off, "root");
    w_str(&mut b, att_name_off, "muzzle");
    w_str(&mut b, hbs_name_off, "default");
    w_str(&mut b, pose_name_off, "aim");
    w_str(&mut b, tex_name_off, "metal");
    w_str(&mut b, dir_str_off, "materials\\props");
    w_str(&mut b, anim_name_off, "idle");
    b
}

/// A vertex file with four vertices and no fix-ups.
fn build_vvd() -> Vec<u8> {
    let vert_off = 64;
    let tangent_off = vert_off + 4 * 48; // 256
    let total = tangent_off + 4 * 16; // 320
    let mut b = vec![0u8; total];
    w_i32(&mut b, 0, 0x56534449); // "IDSV"
    w_i32(&mut b, 4, 4);
    w_i32(&mut b, 12, 1); // lod count
    w_i32(&mut b, 16, 4); // vertices in the top level
    w_i32(&mut b, 48, 0); // no fix-ups
    w_i32(&mut b, 56, vert_off as i32);
    w_i32(&mut b, 60, tangent_off as i32);
    for j in 0..4usize {
        let off = vert_off + j * 48;
        b[off + 15] = 1; // one bone weight
        w_f32(&mut b, off + 16, j as f32); // position
        w_f32(&mut b, off + 20, 2.0 * j as f32);
        w_f32(&mut b, off + 24, 3.0 * j as f32);
        w_f32(&mut b, tangent_off + j * 16, 1.0);
    }
    b
}

/// The same vertex file with a fix-up table that reorders the vertices.
fn build_vvd_with_fixups() -> Vec<u8> {
    let mut b = build_vvd();
    let fixup_off = b.len(); // 320
    b.resize(fixup_off + 2 * 12, 0);
    w_i32(&mut b, 48, 2); // two fix-ups
    w_i32(&mut b, 52, fixup_off as i32);
    // copy vertices [1, 3), then [0, 1)
    w_i32(&mut b, fixup_off + 4, 1);
    w_i32(&mut b, fixup_off + 8, 2);
    w_i32(&mut b, fixup_off + 16, 0);
    w_i32(&mut b, fixup_off + 20, 1);
    b
}

/// A strip index file: one body part, model, detail level and mesh with a
/// single four-vertex triangle strip over six indices.
fn build_vtx() -> Vec<u8> {
    let bp_off = 36;
    let model_off = bp_off + 8; // 44
    let lod_off = model_off + 8; // 52
    let mesh_off = lod_off + 12; // 64
    let group_off = mesh_off + 9; // 73
    let vert_off = group_off + 25; // 98
    let index_off = vert_off + 4 * 9; // 134
    let strip_off = index_off + 6 * 2; // 146
    let total = strip_off + 27; // 173
    let mut b = vec![0u8; total];
    w_i32(&mut b, 0, 7); // version
    w_i32(&mut b, 20, 1); // lod count
    w_i32(&mut b, 28, 1); // body part count
    w_i32(&mut b, 32, bp_off as i32);
    w_i32(&mut b, bp_off, 1); // model count
    w_i32(&mut b, bp_off + 4, (model_off - bp_off) as i32);
    w_i32(&mut b, model_off, 1); // lod count
    w_i32(&mut b, model_off + 4, (lod_off - model_off) as i32);
    w_i32(&mut b, lod_off, 1); // mesh count
    w_i32(&mut b, lod_off + 4, (mesh_off - lod_off) as i32);
    w_i32(&mut b, mesh_off, 1); // strip group count
    w_i32(&mut b, mesh_off + 4, (group_off - mesh_off) as i32);
    w_i32(&mut b, group_off, 4); // vertices
    w_i32(&mut b, group_off + 4, (vert_off - group_off) as i32);
    w_i32(&mut b, group_off + 8, 6); // indices
    w_i32(&mut b, group_off + 12, (index_off - group_off) as i32);
    w_i32(&mut b, group_off + 16, 1); // strips
    w_i32(&mut b, group_off + 20, (strip_off - group_off) as i32);
    for j in 0..4usize {
        w_u16(&mut b, vert_off + j * 9 + 4, j as u16); // original vertex id
    }
    let group_indices = [0u16, 1, 2, 3, 0, 1];
    for (j, gi) in group_indices.iter().enumerate() {
        w_u16(&mut b, index_off + j * 2, *gi);
    }
    w_i32(&mut b, strip_off, 6); // index count
    w_i32(&mut b, strip_off + 4, 0); // index offset
    w_i32(&mut b, strip_off + 8, 4); // vertex count
    w_i32(&mut b, strip_off + 12, 0); // vertex offset
    b[strip_off + 18] = 0x02; // triangle strip
    b
}

#[test]
fn parse_mdl_fixture() {
    let data = build_mdl();
    let mdl = Mdl::read(&data).unwrap();
    assert_eq!(mdl.header.id, 0x54534449);
    assert_eq!(mdl.header.version, 48);
    assert_eq!(mdl.name, "barrel01");
    assert!(mdl.bones.len() >= 1);
    assert!(mdl.body_parts.len() >= 1);
    for part in &mdl.body_parts {
        assert!(part.models.len() >= 1);
    }
    assert_eq!(mdl.bones[0].name, "root");
    assert_eq!(mdl.bones[0].parent, -1);
    assert_eq!(mdl.bones[0].pos.x, 1.5f32.to_bits());
    assert_eq!(mdl.bones[0].surface_prop, "metal");
    assert_eq!(mdl.textures.len(), 1);
    assert_eq!(mdl.textures[0].name, "metal");
    assert_eq!(mdl.texture_paths, vec!["materials/props".to_string()]);
    assert_eq!(mdl.textures[0].search_paths, mdl.texture_paths);
    assert_eq!(mdl.skin_table, vec![0u16]);
    assert_eq!(mdl.surface_prop, "metal");
    assert_eq!(mdl.animation_block_source, "");
    assert_eq!(mdl.body_parts[0].models[0].name, "body");
    assert_eq!(mdl.body_parts[0].models[0].meshes.len(), 1);
    assert_eq!(mdl.body_parts[0].models[0].meshes[0].material, 5);
    assert_eq!(mdl.attachments.len(), 1);
    assert_eq!(mdl.attachments[0].name, "muzzle");
    assert_eq!(mdl.attachments[0].local_bone, 0);
    assert_eq!(mdl.attachments[0].local.transform[0][0], 1.0f32.to_bits());
    assert_eq!(mdl.hit_boxes.len(), 1);
    assert_eq!(mdl.hit_boxes[0].name, "default");
    assert_eq!(mdl.hit_boxes[0].boxes.len(), 1);
    assert_eq!(mdl.hit_boxes[0].boxes[0].group, 1);
    assert_eq!(mdl.hit_boxes[0].boxes[0].min.x, (-1.0f32).to_bits());
    assert_eq!(mdl.hit_boxes[0].boxes[0].max.x, 1.0f32.to_bits());
    assert_eq!(mdl.pose_parameters.len(), 1);
    assert_eq!(mdl.pose_parameters[0].name, "aim");
    assert_eq!(mdl.pose_parameters[0].start, (-1.0f32).to_bits());
    assert_eq!(mdl.pose_parameters[0].end, 1.0f32.to_bits());
}

#[test]
fn parse_mdl_secondary_header() {
    let mut data = build_mdl();
    let h2_off = data.len();
    data.resize(h2_off + 256, 0);
    w_i32(&mut data, 400, h2_off as i32);
    w_i32(&mut data, h2_off + 16, 7); // linear bone index
    let mdl = Mdl::read(&data).unwrap();
    let h2 = mdl.header2.expect("secondary header present");
    assert_eq!(h2.linear_bone_index, 7);
    assert_eq!(h2.source_bone_transform_count, 0);
}

#[test]
fn skin_tables_split_into_families() {
    let mut data = build_mdl();
    // two families of one reference each; the table region holds 4 bytes
    w_i32(&mut data, 224, 2);
    let mdl = Mdl::read(&data).unwrap();
    assert_eq!(mdl.skin_table.len(), 2);
    let vtx = Vtx::read(&build_vtx()).unwrap();
    let vvd = Vvd::read(&build_vvd()).unwrap();
    let model = Model::from_parts(mdl, vtx, vvd);
    let tables = model.skin_tables();
    assert_eq!(tables.len(), 2);
    assert_eq!(tables[0].table.len(), 1);
    assert_eq!(tables[1].table.len(), 1);
    assert_eq!(tables[1].texture(0), Some("metal"));
}

#[test]
fn parse_mdl_animation_chain() {
    let data = build_mdl();
    let mdl = Mdl::read(&data).unwrap();
    assert_eq!(mdl.local_animations.len(), 1);
    let desc = &mdl.local_animations[0];
    assert_eq!(desc.name, "idle");
    assert_eq!(desc.frame_count, 1);
    assert_eq!(desc.fps, 30.0f32.to_bits());
    assert_eq!(desc.animations.len(), 1);
    let anim = &desc.animations[0];
    assert_eq!(anim.bone, 0);
    match &anim.rotation_data {
        vmdl::mdl::RotationData::Quaternion48(q) => {
            assert_eq!(q.x_raw(), 0x8000);
            assert_eq!(q.y_raw(), 0x8000);
            assert_eq!(q.z_raw(), 0x6000);
            assert!(q.w_negative());
        }
        other => panic!("unexpected rotation payload {:?}", other),
    }
    assert!(matches!(anim.position_data, vmdl::mdl::PositionData::Absent));
}

#[test]
fn parse_vvd_fixture() {
    let data = build_vvd();
    let vvd = Vvd::read(&data).unwrap();
    assert!(!vvd.header.has_fixups());
    // without fix-ups the vertex count is the top detail level's count
    assert_eq!(vvd.vertices.len(), vvd.header.lod_vertex_count[0] as usize);
    assert_eq!(vvd.vertices.len(), 4);
    assert_eq!(vvd.tangents.len(), 4);
    assert_eq!(vvd.vertices[2].position.x, 2.0f32.to_bits());
    assert_eq!(vvd.vertices[2].position.y, 4.0f32.to_bits());
    assert_eq!(vvd.vertices[3].bone_weights.bone_count, 1);
}

#[test]
fn parse_vvd_applies_fixups() {
    let data = build_vvd_with_fixups();
    let vvd = Vvd::read(&data).unwrap();
    // two fix-ups copying 2 + 1 vertices
    assert_eq!(vvd.vertices.len(), 3);
    assert_eq!(vvd.tangents.len(), vvd.vertices.len());
    assert_eq!(vvd.vertices[0].position.x, 1.0f32.to_bits());
    assert_eq!(vvd.vertices[1].position.x, 2.0f32.to_bits());
    assert_eq!(vvd.vertices[2].position.x, 0.0f32.to_bits());
}

#[test]
fn parse_vtx_fixture() {
    let data = build_vtx();
    let vtx = Vtx::read(&data).unwrap();
    assert_eq!(vtx.header.version, 7);
    assert_eq!(vtx.body_parts.len(), 1);
    let lod = &vtx.body_parts[0].models[0].lods[0];
    assert_eq!(lod.meshes.len(), 1);
    let group = &lod.meshes[0].strip_groups[0];
    assert_eq!(group.vertices.len(), 4);
    assert_eq!(group.indices, vec![0u16, 1, 2, 3, 0, 1]);
    assert_eq!(group.strips.len(), 1);
    assert!(group.strips[0].flags.tri_strip());
    assert_eq!(group.vertices[3].original_mesh_vertex_id, 3);
}

#[test]
fn joined_model_strip_indices_stay_in_bounds() {
    let mdl = Mdl::read(&build_mdl()).unwrap();
    let vtx = Vtx::read(&build_vtx()).unwrap();
    let vvd = Vvd::read(&build_vvd()).unwrap();
    let model = Model::from_parts(mdl, vtx, vvd);
    let meshes = model.meshes().unwrap();
    assert_eq!(meshes.len(), 1);
    assert_eq!(meshes[0].material_index(), 5);
    assert_eq!(meshes[0].model_name.as_str(), "body");
    let strips = meshes[0].vertex_strip_indices();
    assert_eq!(strips.len(), 1);
    // triangle strip over group indices [0,1,2,3,0,1]
    assert_eq!(strips[0], vec![0, 1, 2, 2, 1, 3, 2, 3, 0, 0, 3, 1]);
    for strip in &strips {
        for &index in strip {
            assert!(index < model.vertices().len());
        }
    }
}

#[test]
fn joined_model_accessors() {
    let mdl = Mdl::read(&build_mdl()).unwrap();
    let vtx = Vtx::read(&build_vtx()).unwrap();
    let vvd = Vvd::read(&build_vvd()).unwrap();
    let model = Model::from_parts(mdl, vtx, vvd);
    assert_eq!(model.name().as_str(), "barrel01");
    assert_eq!(model.surface_prop().as_str(), "metal");
    assert_eq!(model.bones().len(), 1);
    assert_eq!(model.textures().len(), 1);
    assert_eq!(model.texture_directories().len(), 1);
    assert_eq!(model.vertices().len(), 4);
    assert_eq!(model.tangents().len(), 4);
    let tables = model.skin_tables();
    assert_eq!(tables.len(), 1);
    assert_eq!(tables[0].texture_index(0), Some(0));
    assert_eq!(tables[0].texture(0), Some("metal"));
    assert_eq!(tables[0].texture(1), None);
    let vertex = model.vertices()[1];
    let frame_position =
        model.apply_animation(&model.mdl.local_animations[0], &vertex, 0);
    assert_eq!(frame_position, vertex.position);
}

#[test]
fn mesh_join_mismatch_is_reported() {
    let mdl = Mdl::read(&build_mdl()).unwrap();
    let vvd = Vvd::read(&build_vvd()).unwrap();
    // a VTX file with one body part holding zero models
    let mut b = vec![0u8; 44];
    w_i32(&mut b, 0, 7);
    w_i32(&mut b, 28, 1);
    w_i32(&mut b, 32, 36);
    let vtx = Vtx::read(&b).unwrap();
    let model = Model::from_parts(mdl, vtx, vvd);
    match model.meshes() {
        Err(ModelError::OutOfBounds { data, offset }) => {
            assert_eq!(data, "mesh_join");
            assert_eq!(offset, 0);
        }
        other => panic!("expected a join fault, got {:?}", other.is_ok()),
    }
}

#[test]
fn bounding_box_contains_every_vertex() {
    let mdl = Mdl::read(&build_mdl()).unwrap();
    let vtx = Vtx::read(&build_vtx()).unwrap();
    let vvd = Vvd::read(&build_vvd()).unwrap();
    let model = Model::from_parts(mdl, vtx, vvd);
    let (lo, hi) = model.bounding_box();
    assert_eq!(lo.x, 0.0f32.to_bits());
    assert_eq!(lo.y, 0.0f32.to_bits());
    assert_eq!(lo.z, 0.0f32.to_bits());
    assert_eq!(hi.x, 3.0f32.to_bits());
    assert_eq!(hi.y, 6.0f32.to_bits());
    assert_eq!(hi.z, 9.0f32.to_bits());
    for v in model.vertices() {
        assert!(f32::from_bits(lo.x) <= f32::from_bits(v.position.x));
        assert!(f32::from_bits(v.position.x) <= f32::from_bits(hi.x));
        assert!(f32::from_bits(lo.y) <= f32::from_bits(v.position.y));
        assert!(f32::from_bits(v.position.y) <= f32::from_bits(hi.y));
        assert!(f32::from_bits(lo.z) <= f32::from_bits(v.position.z));
        assert!(f32::from_bits(v.position.z) <= f32::from_bits(hi.z));
    }
}

#[test]
fn truncated_files_fail_cleanly() {
    // every prefix of each fixture parses to Ok or a named error, never a
    // panic
    let mdl = build_mdl();
    for n in 0..mdl.len() {
        let _ = Mdl::read(&mdl[..n]);
    }
    let vvd = build_vvd_with_fixups();
    for n in 0..vvd.len() {
        let _ = Vvd::read(&vvd[..n]);
    }
    let vtx = build_vtx();
    for n in 0..vtx.len() {
        let _ = Vtx::read(&vtx[..n]);
    }
}

#[test]
fn garbage_bytes_fail_cleanly() {
    // a pseudo-random byte soup must yield Ok or a named error
    let mut state = 0x12345678u32;
    let mut data = Vec::new();
    for _ in 0..4096 {
        state = state.wrapping_mul(1664525).wrapping_add(1013904223);
        data.push((state >> 24) as u8);
    }
    let _ = Mdl::read(&data);
    let _ = Vvd::read(&data);
    let _ = Vtx::read(&data);
}

#[test]
fn short_file_reports_eof() {
    assert!(matches!(Mdl::read(&[0u8; 10]), Err(ModelError::Eof(408))));
    assert!(matches!(Vvd::read(&[0u8; 10]), Err(ModelError::Eof(64))));
    assert!(matches!(Vtx::read(&[0u8; 10]), Err(ModelError::Eof(36))));
}

#[test]
fn missing_lod_reports_out_of_bounds() {
    // a vertex file header with no detail levels
    let b = vec![0u8; 64];
    match Vvd::read(&b) {
        Err(ModelError::OutOfBounds { data, offset }) => {
            assert_eq!(data, "model_lod");
            assert_eq!(offset, 0);
        }
        other => panic!("expected an out-of-bounds fault, got {:?}", other.is_ok()),
    }
}

#[test]
fn invalid_utf8_name_is_rejected() {
    let mut data = build_mdl();
    // clobber the bone name with invalid UTF-8
    data[1086] = 0xFF;
    assert!(matches!(
        Mdl::read(&data),
        Err(ModelError::String(StringError::NonUtf8))
    ));
}

#[test]
fn unterminated_name_is_rejected() {
    let mut data = build_mdl();
    for i in 12..76 {
        data[i] = b'a';
    }
    assert!(matches!(
        Mdl::read(&data),
        Err(ModelError::String(StringError::NotNullTerminated))
    ));
}

#[test]
fn bone_parent_must_precede_child() {
    let mut data = build_mdl();
    // the bone claims itself as parent
    w_i32(&mut data, 408 + 4, 0);
    match Mdl::read(&data) {
        Err(ModelError::OutOfBounds { data, offset }) => {
            assert_eq!(data, "bone_parent");
            assert_eq!(offset, 0);
        }
        other => panic!("expected a parent-order fault, got {:?}", other.is_ok()),
    }
}

#[test]
fn external_animation_blocks_are_refused() {
    let mut data = build_mdl();
    w_i32(&mut data, 976 + 52, 3); // animation_block != 0
    match Mdl::read(&data) {
        Err(ModelError::OutOfBounds { data, .. }) => {
            assert_eq!(data, "animation_block");
        }
        other => panic!("expected an animation-block fault, got {:?}", other.is_ok()),
    }
}

#[test]
fn magic_and_version_are_reported_not_enforced() {
    // a wrong magic or version still parses; the caller inspects the header
    let mut data = build_mdl();
    w_i32(&mut data, 0, 0x11223344);
    w_i32(&mut data, 4, 44);
    let mdl = Mdl::read(&data).unwrap();
    assert_ne!(mdl.header.id, vmdl::mdl::FILETYPE_ID);
    assert_ne!(mdl.header.version, vmdl::mdl::MDL_VERSION);
}

#[test]
fn animated_rotation_track_decodes_every_frame() {
    let mut data = build_mdl();
    let anim_rec_off = 1076;
    let vbase = anim_rec_off + 4;
    let stream_off = data.len();
    // one stream node: two stored values covering two frames
    data.extend_from_slice(&[2, 2]);
    data.extend_from_slice(&5i16.to_le_bytes());
    data.extend_from_slice(&(-3i16).to_le_bytes());
    w_i32(&mut data, 976 + 16, 2); // two frames
    data[anim_rec_off + 1] = 0x08; // per-frame rotation stream
    w_u16(&mut data, vbase, (stream_off - vbase) as u16); // first axis
    w_u16(&mut data, vbase + 2, 0); // remaining axes are zero
    w_u16(&mut data, vbase + 4, 0);
    let mdl = Mdl::read(&data).unwrap();
    let anim = &mdl.local_animations[0].animations[0];
    match &anim.rotation_data {
        vmdl::mdl::RotationData::Animated(values) => {
            // the first stream axis lands on the y component
            assert_eq!(
                values.as_slice(),
                &[
                    vmdl::mdl::AnimValue { x: 0, y: 5, z: 0 },
                    vmdl::mdl::AnimValue { x: 0, y: -3, z: 0 },
                ]
            );
        }
        other => panic!("unexpected rotation payload {:?}", other),
    }
}

#[test]
fn raw_position_track_decodes() {
    let mut data = build_mdl();
    let anim_rec_off = 1076;
    // a packed 48-bit rotation followed by a packed 48-bit position
    data[anim_rec_off + 1] = 0x03;
    let mdl = Mdl::read(&data).unwrap();
    let anim = &mdl.local_animations[0].animations[0];
    match &anim.position_data {
        vmdl::mdl::PositionData::Vector48(v) => {
            // the position payload covers the bytes at rest offsets
            // 1086..1092 of the fixture: "root\0m"
            assert_eq!(v.x, u16::from_le_bytes([b'r', b'o']));
            assert_eq!(v.y, u16::from_le_bytes([b'o', b't']));
            assert_eq!(v.z, u16::from_le_bytes([0, b'm']));
        }
        other => panic!("unexpected position payload {:?}", other),
    }
}

#[test]
fn animated_track_with_more_than_256_frames() {
    let mut data = build_mdl();
    let anim_rec_off = 1076;
    let vbase = anim_rec_off + 4;
    let stream_off = data.len();
    // two nodes spanning 255 frames each
    data.extend_from_slice(&[1, 255]);
    data.extend_from_slice(&5i16.to_le_bytes());
    data.extend_from_slice(&[1, 255]);
    data.extend_from_slice(&(-3i16).to_le_bytes());
    w_i32(&mut data, 976 + 16, 300); // three hundred frames
    data[anim_rec_off + 1] = 0x08; // per-frame rotation stream
    w_u16(&mut data, vbase, (stream_off - vbase) as u16);
    w_u16(&mut data, vbase + 2, 0);
    w_u16(&mut data, vbase + 4, 0);
    let mdl = Mdl::read(&data).unwrap();
    let anim = &mdl.local_animations[0].animations[0];
    match &anim.rotation_data {
        vmdl::mdl::RotationData::Animated(values) => {
            assert_eq!(values.len(), 300);
            // frames past the first node's span reach the second node
            assert_eq!(values[254].y, 5);
            assert_eq!(values[255].y, -3);
            assert_eq!(values[299].y, -3);
        }
        other => panic!("unexpected rotation payload {:?}", other),
    }
}

#[test]
fn strip_group_invariant_checker() {
    let vtx = Vtx::read(&build_vtx()).unwrap();
    let group = &vtx.body_parts[0].models[0].lods[0].meshes[0].strip_groups[0];
    // the fixture strip names four distinct vertices over six indices
    assert!(group.strips_well_formed());
    let mut miscounted = group.clone();
    miscounted.strips[0].vertex_count = 5;
    assert!(!miscounted.strips_well_formed());
    let mut out_of_range = group.clone();
    out_of_range.strips[0].index_count = 100;
    assert!(!out_of_range.strips_well_formed());
}

#[test]
fn bone_tree_navigation() {
    let mut mdl = Mdl::read(&build_mdl()).unwrap();
    let mut child = mdl.bones[0].clone();
    child.parent = 0;
    child.name = "child".to_string();
    mdl.bones.push(child);
    assert_eq!(mdl.bone_parent(0), None);
    assert_eq!(mdl.bone_parent(1), Some(0));
    assert_eq!(mdl.bone_parent(7), None);
    assert_eq!(mdl.bone_children(0), vec![1]);
    assert_eq!(mdl.bone_children(1), Vec::<usize>::new());
    assert_eq!(mdl.bone_ancestors(1), vec![0]);
    assert_eq!(mdl.bone_ancestors(0), Vec::<usize>::new());
    assert!(mdl.bone_is_affected_by(1, 0));
    assert!(mdl.bone_is_affected_by(0, 0));
    assert!(!mdl.bone_is_affected_by(0, 1));
}
