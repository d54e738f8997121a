//! The cross-file join: a parsed model definition, triangle-strip index
//! file and vertex file, stitched into meshes whose strip indices point
//! into the canonical vertex array.

use vstd::prelude::*;

use crate::error::ModelError;
use crate::math::{f32_bits_le, f32_bits_max, f32_bits_min, Tangent, Vector};
use crate::mdl::{AnimationDescription, Bone, Mdl, PoseParameterDescription, TextureInfo};
use crate::reader::extend_signed;
use crate::vtx::{strip_index_at, strip_index_len, Strip, StripGroup, Vtx};
use crate::vvd::{Vertex, Vvd};

verus! {

/// `a + b` clamped to the address space.
pub open spec fn sat_add(a: int, b: int) -> int {
    if a + b <= usize::MAX {
        a + b
    } else {
        usize::MAX as int
    }
}

/// Add two indices, clamping to the address space (a clamped index fails
/// every bounds check, like the overflow it stands for).
pub fn sat_add_usize(a: usize, b: usize) -> (r: usize)
    ensures
        r as int == sat_add(a as int, b as int),
{
    match a.checked_add(b) {
        Some(v) => v,
        None => usize::MAX,
    }
}

/// A parsed model: the three files joined.
pub struct Model {
    pub mdl: Mdl,
    pub vtx: Vtx,
    pub vvd: Vvd,
}

/// One texture family of the skin table: a row of texture indices over
/// the model's texture list.
pub struct SkinTable<'a> {
    pub textures: &'a Vec<TextureInfo>,
    pub table: Vec<u16>,
}

impl<'a> SkinTable<'a> {
    /// The texture-table index the family assigns to a material slot.
    pub fn texture_index(&self, index: i32) -> (r: Option<usize>)
        ensures
            match r {
                Some(v) => 0 <= index && extend_signed(index) < self.table@.len() && v
                    == self.table@[extend_signed(index)],
                None => !(0 <= index && extend_signed(index) < self.table@.len()),
            },
    {
        if index >= 0 && (index as usize) < self.table.len() {
            Some(self.table[index as usize] as usize)
        } else {
            None
        }
    }

    /// The texture record the family assigns to a material slot.
    pub fn texture_info(&self, index: i32) -> (r: Option<&'a TextureInfo>)
        ensures
            match r {
                Some(t) => {
                    &&& 0 <= index
                    &&& extend_signed(index) < self.table@.len()
                    &&& self.table@[extend_signed(index)] < self.textures@.len()
                    &&& *t == self.textures@[self.table@[extend_signed(index)] as int]
                },
                None => !(0 <= index && extend_signed(index) < self.table@.len()
                    && self.table@[extend_signed(index)] < self.textures@.len()),
            },
    {
        if index >= 0 && (index as usize) < self.table.len() {
            let ti = self.table[index as usize] as usize;
            if ti < self.textures.len() {
                Some(&self.textures[ti])
            } else {
                None
            }
        } else {
            None
        }
    }

    /// The texture name the family assigns to a material slot.
    pub fn texture(&self, index: i32) -> (r: Option<&'a str>)
        ensures
            match r {
                Some(n) => {
                    &&& 0 <= index
                    &&& extend_signed(index) < self.table@.len()
                    &&& self.table@[extend_signed(index)] < self.textures@.len()
                    &&& n@ == self.textures@[self.table@[extend_signed(index)] as int].name@
                },
                None => !(0 <= index && extend_signed(index) < self.table@.len()
                    && self.table@[extend_signed(index)] < self.textures@.len()),
            },
    {
        match self.texture_info(index) {
            Some(info) => Some(info.name.as_str()),
            None => None,
        }
    }
}

/// One joined mesh: the definition-side mesh, the strip-index-side mesh,
/// and the vertex base its strip indices are relative to.
pub struct Mesh<'a> {
    pub model_name: &'a String,
    pub model_vertex_offset: usize,
    pub vertices: &'a Vec<Vertex>,
    pub tangents: &'a Vec<Tangent>,
    pub mdl: &'a crate::mdl::Mesh,
    pub vtx: &'a crate::vtx::Mesh,
}

// ------------------------------------------------------------------
// Flattening the two mesh hierarchies.
// ------------------------------------------------------------------

/// The meshes of one definition-side model, each with the model's name
/// and vertex base.
pub open spec fn mdl_model_entries(mo: crate::mdl::Model) -> Seq<(crate::mdl::Mesh, Seq<char>, int)> {
    Seq::new(
        mo.meshes@.len(),
        |i: int| (mo.meshes@[i], mo.name@, extend_signed(mo.vertex_offset)),
    )
}

/// The definition-side meshes of a list of models, flattened in order.
pub open spec fn mdl_flat_models(models: Seq<crate::mdl::Model>) -> Seq<
    (crate::mdl::Mesh, Seq<char>, int),
>
    decreases models.len(),
{
    if models.len() == 0 {
        Seq::empty()
    } else {
        mdl_flat_models(models.drop_last()) + mdl_model_entries(models.last())
    }
}

/// The definition-side meshes of a list of body parts, flattened in order.
pub open spec fn mdl_flat_parts(parts: Seq<crate::mdl::BodyPart>) -> Seq<
    (crate::mdl::Mesh, Seq<char>, int),
>
    decreases parts.len(),
{
    if parts.len() == 0 {
        Seq::empty()
    } else {
        mdl_flat_parts(parts.drop_last()) + mdl_flat_models(parts.last().models@)
    }
}

/// The strip-index-side meshes of one model: those of its highest detail
/// level, or none where the model has no levels.
pub open spec fn vtx_model_entries(mo: crate::vtx::Model) -> Seq<crate::vtx::Mesh> {
    if mo.lods@.len() > 0 {
        mo.lods@[0].meshes@
    } else {
        Seq::empty()
    }
}

/// The strip-index-side meshes of a list of models, flattened in order.
pub open spec fn vtx_flat_models(models: Seq<crate::vtx::Model>) -> Seq<crate::vtx::Mesh>
    decreases models.len(),
{
    if models.len() == 0 {
        Seq::empty()
    } else {
        vtx_flat_models(models.drop_last()) + vtx_model_entries(models.last())
    }
}

/// The strip-index-side meshes of a list of body parts, flattened in
/// order.
pub open spec fn vtx_flat_parts(parts: Seq<crate::vtx::BodyPart>) -> Seq<crate::vtx::Mesh>
    decreases parts.len(),
{
    if parts.len() == 0 {
        Seq::empty()
    } else {
        vtx_flat_parts(parts.drop_last()) + vtx_flat_models(parts.last().models@)
    }
}

/// Whether a joined mesh list is the positional zip of the two
/// flattenings.
pub open spec fn meshes_match(r: Seq<Mesh>, m: &Model) -> bool {
    let mf = mdl_flat_parts(m.mdl.body_parts@);
    let vf = vtx_flat_parts(m.vtx.body_parts@);
    &&& r.len() == mf.len() == vf.len()
    &&& forall|i: int|
        0 <= i < r.len() ==> {
            &&& *(#[trigger] r[i]).mdl == mf[i].0
            &&& r[i].model_name@ == mf[i].1
            &&& r[i].model_vertex_offset == mf[i].2
            &&& *r[i].vtx == vf[i]
            &&& r[i].vertices == &m.vvd.vertices
            &&& r[i].tangents == &m.vvd.tangents
        }
}

impl Model {
    /// Join the three parsed files.
    pub fn from_parts(mdl: Mdl, vtx: Vtx, vvd: Vvd) -> (r: Model)
        ensures
            r.mdl == mdl && r.vtx == vtx && r.vvd == vvd,
    {
        Model { mdl, vtx, vvd }
    }

    /// The canonical vertex array.
    pub fn vertices(&self) -> (r: &Vec<Vertex>)
        ensures
            r == &self.vvd.vertices,
    {
        &self.vvd.vertices
    }

    /// The tangent array, parallel to the vertices.
    pub fn tangents(&self) -> (r: &Vec<Tangent>)
        ensures
            r == &self.vvd.tangents,
    {
        &self.vvd.tangents
    }

    /// The texture search directories.
    pub fn texture_directories(&self) -> (r: &Vec<String>)
        ensures
            r == &self.mdl.texture_paths,
    {
        &self.mdl.texture_paths
    }

    /// The texture records.
    pub fn textures(&self) -> (r: &Vec<TextureInfo>)
        ensures
            r == &self.mdl.textures,
    {
        &self.mdl.textures
    }

    /// The model's name.
    pub fn name(&self) -> (r: &String)
        ensures
            r == &self.mdl.name,
    {
        &self.mdl.name
    }

    /// The model's surface property.
    pub fn surface_prop(&self) -> (r: &String)
        ensures
            r == &self.mdl.surface_prop,
    {
        &self.mdl.surface_prop
    }

    /// The bones.
    pub fn bones(&self) -> (r: &Vec<Bone>)
        ensures
            r == &self.mdl.bones,
    {
        &self.mdl.bones
    }

    /// The pose parameters.
    pub fn poses(&self) -> (r: &Vec<PoseParameterDescription>)
        ensures
            r == &self.mdl.pose_parameters,
    {
        &self.mdl.pose_parameters
    }

    /// One skin table per family: consecutive rows of
    /// `skin_reference_count` entries (the last possibly shorter); a model
    /// without skin references yields one empty table.
    #[verifier::loop_isolation(false)]
    pub fn skin_tables(&self) -> (r: Vec<SkinTable>)
        ensures
            self.mdl.header.skin_reference_count <= 0 ==> r@.len() == 1 && r@[0].table@.len() == 0,
            self.mdl.header.skin_reference_count > 0 ==> {
                let n = self.mdl.header.skin_reference_count as int;
                let total = self.mdl.skin_table@.len() as int;
                &&& (total == 0 ==> r@.len() == 0)
                &&& (total > 0 ==> r@.len() >= 1 && (r@.len() - 1) * n < total <= r@.len() * n)
                &&& forall|k: int|
                    0 <= k < r@.len() ==> (#[trigger] r@[k].table)@ == self.mdl.skin_table@.subrange(
                        k * n,
                        if (k + 1) * n <= total {
                            (k + 1) * n
                        } else {
                            total
                        },
                    )
            },
            forall|k: int| 0 <= k < r@.len() ==> (#[trigger] r@[k]).textures == &self.mdl.textures,
    {
        let mut out: Vec<SkinTable> = Vec::new();
        if self.mdl.header.skin_reference_count <= 0 {
            out.push(SkinTable { textures: &self.mdl.textures, table: Vec::new() });
            return out;
        }
        let n = self.mdl.header.skin_reference_count as usize;
        let total = self.mdl.skin_table.len();
        let ghost n_int = n as int;
        let mut start: usize = 0;
        proof {
            assert(out@.len() * n_int == 0) by (nonlinear_arith)
                requires
                    out@.len() == 0,
            ;
        }
        while start < total
            invariant
                start <= total,
                out@.len() == 0 ==> start == 0,
                start as int == out@.len() * n_int || (start == total && out@.len() >= 1 && (
                out@.len() - 1) * n_int < total as int <= out@.len() * n_int),
                forall|k: int|
                    0 <= k < out@.len() ==> (#[trigger] out@[k].table)@
                        == self.mdl.skin_table@.subrange(
                        k * n as int,
                        if (k + 1) * n as int <= total {
                            (k + 1) * n as int
                        } else {
                            total as int
                        },
                    ),
                forall|k: int|
                    0 <= k < out@.len() ==> (#[trigger] out@[k]).textures == &self.mdl.textures,
            decreases total - start,
        {
            let end = if total - start >= n {
                start + n
            } else {
                total
            };
            let mut chunk: Vec<u16> = Vec::new();
            let mut j = start;
            while j < end
                invariant
                    start <= j <= end <= total,
                    total == self.mdl.skin_table@.len(),
                    chunk@ == self.mdl.skin_table@.subrange(start as int, j as int),
                decreases end - j,
            {
                chunk.push(self.mdl.skin_table[j]);
                proof {
                    assert(chunk@ =~= self.mdl.skin_table@.subrange(start as int, j + 1 as int));
                }
                j = j + 1;
            }
            out.push(SkinTable { textures: &self.mdl.textures, table: chunk });
            start = end;
            proof {
                let fam = out@.len() as int;
                assert((fam - 1) * n_int + n_int == fam * n_int) by (nonlinear_arith);
                assert(start as int == if fam * n_int <= total {
                    fam * n_int
                } else {
                    total as int
                });
            }
        }
        proof {
            let fam = out@.len() as int;
            if total == 0 {
                assert(fam == 0) by (nonlinear_arith)
                    requires
                        n_int >= 1,
                        fam >= 0,
                        fam * n_int == 0,
                ;
            } else {
                assert(fam >= 1 && (fam - 1) * n_int < total as int <= fam * n_int)
                    by (nonlinear_arith)
                    requires
                        n_int >= 1,
                        total as int > 0,
                        start == total,
                        start as int == fam * n_int || (start == total && fam >= 1 && (fam - 1)
                            * n_int < total as int <= fam * n_int),
                ;
            }
        }
        out
    }

    /// The joined meshes: the definition-side flattening zipped with the
    /// strip-index-side flattening, position by position. Where the two
    /// hierarchies disagree in length the join is refused at the first
    /// missing pair.
    pub fn meshes(&self) -> (r: Result<Vec<Mesh>, ModelError>)
        ensures
            match r {
                Ok(v) => mdl_flat_parts(self.mdl.body_parts@).len() == vtx_flat_parts(
                    self.vtx.body_parts@,
                ).len() && meshes_match(v@, self),
                Err(e) => {
                    let ml = mdl_flat_parts(self.mdl.body_parts@).len() as int;
                    let vl = vtx_flat_parts(self.vtx.body_parts@).len() as int;
                    ml != vl && e == (ModelError::OutOfBounds {
                        data: "mesh_join",
                        offset: (if ml <= vl {
                            ml
                        } else {
                            vl
                        }) as usize,
                    })
                },
            },
    {
        let mdl_list = self.flatten_mdl();
        let vtx_list = self.flatten_vtx();
        if mdl_list.len() != vtx_list.len() {
            let at = if mdl_list.len() <= vtx_list.len() {
                mdl_list.len()
            } else {
                vtx_list.len()
            };
            return Err(ModelError::OutOfBounds { data: "mesh_join", offset: at });
        }
        let mut out: Vec<Mesh> = Vec::new();
        let ghost mf = mdl_flat_parts(self.mdl.body_parts@);
        let ghost vf = vtx_flat_parts(self.vtx.body_parts@);
        let n = mdl_list.len();
        for i in 0..n
            invariant
                n == mdl_list@.len() == vtx_list@.len(),
                mf == mdl_flat_parts(self.mdl.body_parts@),
                vf == vtx_flat_parts(self.vtx.body_parts@),
                mdl_entries_match(mdl_list@, mf, self),
                vtx_entries_match(vtx_list@, vf),
                out@.len() == i,
                forall|j: int|
                    0 <= j < i ==> {
                        &&& *(#[trigger] out@[j]).mdl == mf[j].0
                        &&& out@[j].model_name@ == mf[j].1
                        &&& out@[j].model_vertex_offset == mf[j].2
                        &&& *out@[j].vtx == vf[j]
                        &&& out@[j].vertices == &self.vvd.vertices
                        &&& out@[j].tangents == &self.vvd.tangents
                    },
        {
            let entry = &mdl_list[i];
            out.push(
                Mesh {
                    model_name: entry.1,
                    model_vertex_offset: entry.2,
                    vertices: &self.vvd.vertices,
                    tangents: &self.vvd.tangents,
                    mdl: entry.0,
                    vtx: vtx_list[i],
                },
            );
        }
        Ok(out)
    }

    /// Flatten the definition-side hierarchy into (mesh, model name,
    /// model vertex base) triples.
    #[verifier::loop_isolation(false)]
    fn flatten_mdl(&self) -> (r: Vec<(&crate::mdl::Mesh, &String, usize)>)
        ensures
            mdl_entries_match(r@, mdl_flat_parts(self.mdl.body_parts@), self),
    {
        let mut out: Vec<(&crate::mdl::Mesh, &String, usize)> = Vec::new();
        let parts = &self.mdl.body_parts;
        for p in 0..parts.len()
            invariant
                mdl_entries_match(out@, mdl_flat_parts(parts@.take(p as int)), self),
        {
            let models = &parts[p].models;
            for m in 0..models.len()
                invariant
                    mdl_entries_match(
                        out@,
                        mdl_flat_parts(parts@.take(p as int)) + mdl_flat_models(
                            models@.take(m as int),
                        ),
                        self,
                    ),
            {
                let model = &models[m];
                for k in 0..model.meshes.len()
                    invariant
                        mdl_entries_match(
                            out@,
                            mdl_flat_parts(parts@.take(p as int)) + mdl_flat_models(
                                models@.take(m as int),
                            ) + mdl_model_entries(*model).take(k as int),
                            self,
                        ),
                {
                    let off = crate::reader::extend_to_usize(model.vertex_offset);
                    out.push((&model.meshes[k], &model.name, off));
                    proof {
                        assert(mdl_model_entries(*model).take(k + 1 as int)
                            =~= mdl_model_entries(*model).take(k as int).push(
                            mdl_model_entries(*model)[k as int],
                        ));
                    }
                }
                proof {
                    assert(mdl_model_entries(*model).take(model.meshes@.len() as int)
                        =~= mdl_model_entries(*model));
                    assert(models@.take(m + 1 as int).drop_last() =~= models@.take(m as int));
                    assert(mdl_flat_models(models@.take(m + 1 as int)) == mdl_flat_models(
                        models@.take(m as int),
                    ) + mdl_model_entries(models@[m as int]));
                }
            }
            proof {
                assert(models@.take(models@.len() as int) =~= models@);
                assert(parts@.take(p + 1 as int).drop_last() =~= parts@.take(p as int));
                assert(mdl_flat_parts(parts@.take(p + 1 as int)) == mdl_flat_parts(
                    parts@.take(p as int),
                ) + mdl_flat_models(parts@[p as int].models@));
            }
        }
        proof {
            assert(parts@.take(parts@.len() as int) =~= parts@);
        }
        out
    }

    /// Flatten the strip-index-side hierarchy into its highest-detail
    /// meshes.
    #[verifier::loop_isolation(false)]
    fn flatten_vtx(&self) -> (r: Vec<&crate::vtx::Mesh>)
        ensures
            vtx_entries_match(r@, vtx_flat_parts(self.vtx.body_parts@)),
    {
        let mut out: Vec<&crate::vtx::Mesh> = Vec::new();
        let parts = &self.vtx.body_parts;
        for p in 0..parts.len()
            invariant
                vtx_entries_match(out@, vtx_flat_parts(parts@.take(p as int))),
        {
            let models = &parts[p].models;
            for m in 0..models.len()
                invariant
                    vtx_entries_match(
                        out@,
                        vtx_flat_parts(parts@.take(p as int)) + vtx_flat_models(
                            models@.take(m as int),
                        ),
                    ),
            {
                let model = &models[m];
                if model.lods.len() > 0 {
                    let lod = &model.lods[0];
                    for k in 0..lod.meshes.len()
                        invariant
                            vtx_entries_match(
                                out@,
                                vtx_flat_parts(parts@.take(p as int)) + vtx_flat_models(
                                    models@.take(m as int),
                                ) + lod.meshes@.take(k as int),
                            ),
                    {
                        out.push(&lod.meshes[k]);
                        proof {
                            assert(lod.meshes@.take(k + 1 as int) =~= lod.meshes@.take(
                                k as int,
                            ).push(lod.meshes@[k as int]));
                        }
                    }
                    proof {
                        assert(lod.meshes@.take(lod.meshes@.len() as int) =~= lod.meshes@);
                    }
                }
                proof {
                    assert(models@.take(m + 1 as int).drop_last() =~= models@.take(m as int));
                    assert(vtx_flat_models(models@.take(m + 1 as int)) == vtx_flat_models(
                        models@.take(m as int),
                    ) + vtx_model_entries(models@[m as int]));
                    if models@[m as int].lods@.len() == 0 {
                        assert(vtx_flat_models(models@.take(m as int)) + Seq::<
                            crate::vtx::Mesh,
                        >::empty() =~= vtx_flat_models(models@.take(m as int)));
                    }
                }
            }
            proof {
                assert(models@.take(models@.len() as int) =~= models@);
                assert(parts@.take(p + 1 as int).drop_last() =~= parts@.take(p as int));
                assert(vtx_flat_parts(parts@.take(p + 1 as int)) == vtx_flat_parts(
                    parts@.take(p as int),
                ) + vtx_flat_models(parts@[p as int].models@));
            }
        }
        proof {
            assert(parts@.take(parts@.len() as int) =~= parts@);
        }
        out
    }

    /// The bounding box of the canonical vertex positions: componentwise
    /// smallest and largest in the sign-magnitude order on bit patterns
    /// (which agrees with `<=` on the encoded numbers away from NaNs);
    /// both corners are zero for a model without vertices.
    pub fn bounding_box(&self) -> (r: (Vector, Vector))
        ensures
            forall|i: int|
                0 <= i < self.vvd.vertices@.len() ==> {
                    let p = (#[trigger] self.vvd.vertices@[i]).position;
                    &&& f32_bits_le(r.0.x, p.x) && f32_bits_le(p.x, r.1.x)
                    &&& f32_bits_le(r.0.y, p.y) && f32_bits_le(p.y, r.1.y)
                    &&& f32_bits_le(r.0.z, p.z) && f32_bits_le(p.z, r.1.z)
                },
            self.vvd.vertices@.len() == 0 ==> r.0 == (Vector { x: 0, y: 0, z: 0 }) && r.1 == (
            Vector { x: 0, y: 0, z: 0 }),
            self.vvd.vertices@.len() > 0 ==> {
                &&& (exists|i: int|
                    0 <= i < self.vvd.vertices@.len() && r.0.x == (
                    #[trigger] self.vvd.vertices@[i]).position.x)
                &&& (exists|i: int|
                    0 <= i < self.vvd.vertices@.len() && r.1.x == (
                    #[trigger] self.vvd.vertices@[i]).position.x)
                &&& (exists|i: int|
                    0 <= i < self.vvd.vertices@.len() && r.0.y == (
                    #[trigger] self.vvd.vertices@[i]).position.y)
                &&& (exists|i: int|
                    0 <= i < self.vvd.vertices@.len() && r.1.y == (
                    #[trigger] self.vvd.vertices@[i]).position.y)
                &&& (exists|i: int|
                    0 <= i < self.vvd.vertices@.len() && r.0.z == (
                    #[trigger] self.vvd.vertices@[i]).position.z)
                &&& (exists|i: int|
                    0 <= i < self.vvd.vertices@.len() && r.1.z == (
                    #[trigger] self.vvd.vertices@[i]).position.z)
            },
    {
        let vs = &self.vvd.vertices;
        if vs.len() == 0 {
            return (Vector { x: 0, y: 0, z: 0 }, Vector { x: 0, y: 0, z: 0 });
        }
        let first = vs[0].position;
        let mut lo = first;
        let mut hi = first;
        for i in 1..vs.len()
            invariant
                vs@.len() >= 1,
                vs == &self.vvd.vertices,
                forall|j: int|
                    0 <= j < i ==> {
                        let p = (#[trigger] vs@[j]).position;
                        &&& f32_bits_le(lo.x, p.x) && f32_bits_le(p.x, hi.x)
                        &&& f32_bits_le(lo.y, p.y) && f32_bits_le(p.y, hi.y)
                        &&& f32_bits_le(lo.z, p.z) && f32_bits_le(p.z, hi.z)
                    },
                exists|j: int| 0 <= j < vs@.len() && lo.x == (#[trigger] vs@[j]).position.x,
                exists|j: int| 0 <= j < vs@.len() && hi.x == (#[trigger] vs@[j]).position.x,
                exists|j: int| 0 <= j < vs@.len() && lo.y == (#[trigger] vs@[j]).position.y,
                exists|j: int| 0 <= j < vs@.len() && hi.y == (#[trigger] vs@[j]).position.y,
                exists|j: int| 0 <= j < vs@.len() && lo.z == (#[trigger] vs@[j]).position.z,
                exists|j: int| 0 <= j < vs@.len() && hi.z == (#[trigger] vs@[j]).position.z,
        {
            let p = vs[i].position;
            lo = Vector {
                x: f32_bits_min(lo.x, p.x),
                y: f32_bits_min(lo.y, p.y),
                z: f32_bits_min(lo.z, p.z),
            };
            hi = Vector {
                x: f32_bits_max(hi.x, p.x),
                y: f32_bits_max(hi.y, p.y),
                z: f32_bits_max(hi.z, p.z),
            };
            proof {
                lemma_f32_bits_le_trans();
            }
        }
        (lo, hi)
    }

    /// The placeholder for skinned animation: the vertex position,
    /// unchanged.
    pub fn apply_animation(
        &self,
        animation: &AnimationDescription,
        vertex: &Vertex,
        frame: usize,
    ) -> (r: Vector)
        ensures
            r == vertex.position,
    {
        vertex.position
    }
}

/// The sign-magnitude order is transitive.
pub proof fn lemma_f32_bits_le_trans()
    ensures
        forall|a: u32, b: u32, c: u32|
            #[trigger] f32_bits_le(a, b) && #[trigger] f32_bits_le(b, c) ==> f32_bits_le(a, c),
{
}

/// Whether a flattened definition-side list matches its specification.
pub open spec fn mdl_entries_match(
    r: Seq<(&crate::mdl::Mesh, &String, usize)>,
    f: Seq<(crate::mdl::Mesh, Seq<char>, int)>,
    m: &Model,
) -> bool {
    &&& r.len() == f.len()
    &&& forall|i: int|
        0 <= i < r.len() ==> {
            &&& *(#[trigger] r[i]).0 == f[i].0
            &&& r[i].1@ == f[i].1
            &&& r[i].2 as int == f[i].2
        }
}

/// Whether a flattened strip-index-side list matches its specification.
pub open spec fn vtx_entries_match(r: Seq<&crate::vtx::Mesh>, f: Seq<crate::vtx::Mesh>) -> bool {
    &&& r.len() == f.len()
    &&& forall|i: int| 0 <= i < r.len() ==> *(#[trigger] r[i]) == f[i]
}

// ------------------------------------------------------------------
// Strip indices into the canonical vertex array.
// ------------------------------------------------------------------

/// The canonical vertex index one generated strip index yields, if its
/// two indirections stay inside the group's arrays: position `k` of the
/// expansion names a slot of the group's index array, that names one of
/// the group's vertices, whose `original_mesh_vertex_id` plus the mesh's
/// base is the answer.
pub open spec fn strip_vertex_index(g: StripGroup, st: Strip, base: int, k: int) -> Option<int> {
    let j = strip_index_at(st, k);
    if 0 <= j < g.indices@.len() && g.indices@[j] < g.vertices@.len() {
        Some(sat_add(g.vertices@[g.indices@[j] as int].original_mesh_vertex_id as int, base))
    } else {
        None
    }
}

/// The canonical vertex indices of one strip: every in-range expansion
/// position, in order (positions whose indirection leaves the group's
/// arrays contribute nothing).
pub open spec fn strip_vertex_indices(g: StripGroup, st: Strip, base: int, k: int) -> Seq<int>
    decreases k,
{
    if k <= 0 {
        Seq::empty()
    } else {
        strip_vertex_indices(g, st, base, k - 1) + match strip_vertex_index(g, st, base, k - 1) {
            Some(v) => seq![v],
            None => Seq::empty(),
        }
    }
}

/// Every canonical vertex index a strip yields lies inside the vertex
/// array, for a model whose files agree: the mesh's vertex base is
/// non-negative and every group vertex id plus that base stays below the
/// vertex count. This is the cross-file consistency a well-formed model
/// carries; the parsers cannot establish it for a single file.
pub proof fn lemma_strip_vertex_indices_bounded(
    g: StripGroup,
    st: Strip,
    base: int,
    nverts: int,
    k: int,
)
    requires
        0 <= base,
        nverts <= usize::MAX,
        forall|i: int|
            0 <= i < g.vertices@.len() ==> (#[trigger] g.vertices@[i]).original_mesh_vertex_id
                + base < nverts,
    ensures
        forall|j: int|
            0 <= j < strip_vertex_indices(g, st, base, k).len() ==> 0
                <= #[trigger] strip_vertex_indices(g, st, base, k)[j] < nverts,
    decreases k,
{
    if k > 0 {
        lemma_strip_vertex_indices_bounded(g, st, base, nverts, k - 1);
        let prev = strip_vertex_indices(g, st, base, k - 1);
        let cur = strip_vertex_indices(g, st, base, k);
        match strip_vertex_index(g, st, base, k - 1) {
            Some(v) => {
                assert(cur == prev + seq![v]);
                assert(0 <= v < nverts);
            },
            None => {
                assert(cur =~= prev);
            },
        }
    }
}

impl<'a> Mesh<'a>  {
    /// The material index of the mesh.
    pub fn material_index(&self) -> (r: i32)
        ensures
            r == self.mdl.material,
    {
        self.mdl.material
    }

    /// The canonical vertex indices of each strip of each strip group of
    /// the mesh, in order: strip indices are expanded to triangles, routed
    /// through the group's index and vertex arrays, and offset by the
    /// model's and mesh's vertex bases.
    #[verifier::loop_isolation(false)]
    pub fn vertex_strip_indices(&self) -> (r: Vec<Vec<usize>>)
        requires
            mesh_strips_wf(self),
        ensures
            r@.len() == strip_count(self.vtx.strip_groups@),
            forall|gi: int, si: int|
                0 <= gi < self.vtx.strip_groups@.len() && 0 <= si < (
                #[trigger] self.vtx.strip_groups@[gi]).strips@.len() ==> {
                    let g = self.vtx.strip_groups@[gi];
                    let st = g.strips@[si];
                    (#[trigger] r@[strip_count(self.vtx.strip_groups@.take(gi)) + si])@.map_values(
                        |v: usize| v as int,
                    ) == strip_vertex_indices(
                        g,
                        st,
                        mesh_vertex_base(self),
                        strip_index_len(st),
                    )
                },
    {
        let base = sat_add_usize(
            crate::reader::extend_to_usize(self.mdl.vertex_offset),
            self.model_vertex_offset,
        );
        let mut out: Vec<Vec<usize>> = Vec::new();
        let groups = &self.vtx.strip_groups;
        for gi in 0..groups.len()
            invariant
                out@.len() == strip_count(groups@.take(gi as int)),
                forall|gj: int, si: int|
                    0 <= gj < gi && 0 <= si < (#[trigger] groups@[gj]).strips@.len() ==> {
                        let g = groups@[gj];
                        let st = g.strips@[si];
                        (#[trigger] out@[strip_count(groups@.take(gj)) + si])@.map_values(
                            |v: usize| v as int,
                        ) == strip_vertex_indices(g, st, mesh_vertex_base(self), strip_index_len(st))
                    },
        {
            let group = &groups[gi];
            let strips_n = group.strips.len();
            proof {
                assert(strip_count(groups@.take(gi + 1 as int)) == strip_count(
                    groups@.take(gi as int),
                ) + groups@[gi as int].strips@.len()) by {
                    assert(groups@.take(gi + 1 as int).drop_last() =~= groups@.take(gi as int));
                }
            }
            for si in 0..strips_n
                invariant
                    out@.len() == strip_count(groups@.take(gi as int)) + si,
                    forall|gj: int, sj: int|
                        0 <= gj < gi && 0 <= sj < (#[trigger] groups@[gj]).strips@.len() ==> {
                            let g = groups@[gj];
                            let st = g.strips@[sj];
                            (#[trigger] out@[strip_count(groups@.take(gj)) + sj])@.map_values(
                                |v: usize| v as int,
                            ) == strip_vertex_indices(
                                g,
                                st,
                                mesh_vertex_base(self),
                                strip_index_len(st),
                            )
                        },
                    forall|sj: int|
                        0 <= sj < si ==> {
                            let g = groups@[gi as int];
                            let st = g.strips@[sj];
                            (#[trigger] out@[strip_count(groups@.take(gi as int)) + sj])@.map_values(
                                |v: usize| v as int,
                            ) == strip_vertex_indices(
                                g,
                                st,
                                mesh_vertex_base(self),
                                strip_index_len(st),
                            )
                        },
            {
                let indices = strip_to_vertex_indices(group, &group.strips[si], base);
                out.push(indices);
                proof {
                    assert forall|gj: int, sj: int|
                        0 <= gj < gi && 0 <= sj < (#[trigger] groups@[gj]).strips@.len() implies {
                            let g = groups@[gj];
                            let st = g.strips@[sj];
                            (#[trigger] out@[strip_count(groups@.take(gj)) + sj])@.map_values(
                                |v: usize| v as int,
                            ) == strip_vertex_indices(
                                g,
                                st,
                                mesh_vertex_base(self),
                                strip_index_len(st),
                            )
                        } by {
                        lemma_strip_count_bound(groups@, gj, gi as int);
                        assert(strip_count(groups@.take(gj)) + sj < strip_count(
                            groups@.take(gi as int),
                        ) + si);
                    }
                }
            }
        }
        proof {
            assert(groups@.take(groups@.len() as int) =~= groups@);
        }
        out
    }
}

/// Whether every strip of a joined mesh has ranges that fit the address
/// space; every strip that came out of a parse does.
pub open spec fn mesh_strips_wf(m: &Mesh) -> bool {
    forall|gi: int, si: int|
        0 <= gi < m.vtx.strip_groups@.len() && 0 <= si < (
        #[trigger] m.vtx.strip_groups@[gi]).strips@.len() ==> (
        #[trigger] m.vtx.strip_groups@[gi].strips@[si]).wf()
}

/// The vertex base of a joined mesh: the definition mesh's offset plus
/// the model's, clamped to the address space.
pub open spec fn mesh_vertex_base(m: &Mesh) -> int {
    sat_add(extend_signed(m.mdl.vertex_offset), m.model_vertex_offset as int)
}

/// How many strips a list of strip groups holds in total.
pub open spec fn strip_count(groups: Seq<StripGroup>) -> int
    decreases groups.len(),
{
    if groups.len() == 0 {
        0int
    } else {
        strip_count(groups.drop_last()) + groups.last().strips@.len()
    }
}

/// A group's strips lie wholly before the strips of every later group in
/// the flattened numbering.
pub proof fn lemma_strip_count_bound(groups: Seq<StripGroup>, a: int, b: int)
    requires
        0 <= a < b <= groups.len(),
    ensures
        0 <= strip_count(groups.take(a)),
        strip_count(groups.take(a)) + groups[a].strips@.len() <= strip_count(groups.take(b)),
    decreases b - a,
{
    lemma_strip_count_nonneg(groups, a);
    assert(groups.take(a + 1).drop_last() =~= groups.take(a));
    assert(groups.take(a + 1).last() == groups[a]);
    if a + 1 < b {
        lemma_strip_count_bound(groups, a + 1, b);
    }
}

/// A prefix strip count is never negative.
pub proof fn lemma_strip_count_nonneg(groups: Seq<StripGroup>, a: int)
    requires
        0 <= a <= groups.len(),
    ensures
        0 <= strip_count(groups.take(a)),
    decreases a,
{
    if a > 0 {
        lemma_strip_count_nonneg(groups, a - 1);
        assert(groups.take(a).drop_last() =~= groups.take(a - 1));
    }
}

/// Expand one strip and route each generated index through the group's
/// arrays to a canonical vertex index.
#[verifier::loop_isolation(false)]
fn strip_to_vertex_indices(group: &StripGroup, strip: &Strip, base: usize) -> (r: Vec<usize>)
    requires
        strip.wf(),
    ensures
        r@.map_values(|v: usize| v as int) == strip_vertex_indices(
            *group,
            *strip,
            base as int,
            strip_index_len(*strip),
        ),
{
    let expansion = strip.indices();
    let mut out: Vec<usize> = Vec::new();
    let n = expansion.len();
    for k in 0..n
        invariant
            n == expansion@.len() == strip_index_len(*strip),
            forall|j: int| 0 <= j < n ==> expansion@[j] == strip_index_at(*strip, j),
            out@.map_values(|v: usize| v as int) == strip_vertex_indices(
                *group,
                *strip,
                base as int,
                k as int,
            ),
    {
        let j = expansion[k];
        if j < group.indices.len() {
            let gi = group.indices[j] as usize;
            if gi < group.vertices.len() {
                let id = group.vertices[gi].original_mesh_vertex_id as usize;
                out.push(sat_add_usize(id, base));
            }
        }
        proof {
            assert(out@.map_values(|v: usize| v as int) =~= strip_vertex_indices(
                *group,
                *strip,
                base as int,
                k + 1 as int,
            ));
        }
    }
    out
}

} // verus!
