use crate::error::DecodeError;
use crate::globals::{spec_header, Globals, Header, HeaderM};
use crate::morph::{Morph, MorphM};
use crate::pmxbone::{Bone, BoneM};
use crate::pmxindex::{le_unsigned, spec_le_unsigned};
use crate::pmxmaterial::{Material, MaterialM};
use crate::pmxstring::{spec_pmx_string, Texture};
use crate::reader::{spec_u32, Reader};
use crate::repeat::{lemma_count_step, lemma_count_step_err, spec_count};
use crate::vertex::{Vertex, VertexM};
use vstd::prelude::*;
use vstd::slice::slice_to_vec;

verus! {

/// One triangle: three vertex references read by the unsigned vertex-index
/// rule at the vertex-index width.  Faces cannot be "absent", so the signed
/// sentinel rule does not apply.
#[derive(Clone, Copy, Debug, PartialEq, Eq, Structural)]
pub struct Face(pub i32, pub i32, pub i32);

/// One face read at `i`: three consecutive vertex indices.
pub open spec fn spec_face(s: Seq<u8>, i: int, g: Globals) -> Result<(Face, int), DecodeError> {
    match spec_le_unsigned(s, i, g.vertex_index_size) {
        Ok((a, i1)) => match spec_le_unsigned(s, i1, g.vertex_index_size) {
            Ok((b, i2)) => match spec_le_unsigned(s, i2, g.vertex_index_size) {
                Ok((c, j)) => Ok((Face(a, b, c), j)),
                Err(e) => Err(e),
            },
            Err(e) => Err(e),
        },
        Err(e) => Err(e),
    }
}

impl Face {
    /// Reads one triangle's three vertex indices.
    pub fn parse(r: &mut Reader, g: &Globals) -> (res: Result<Face, DecodeError>)
        requires
            old(r).wf(),
        ensures
            final(r).wf(),
            final(r).bytes() == old(r).bytes(),
            res matches Ok(v) ==> spec_face(old(r).bytes(), old(r).position(), *g) == Ok::<
                (Face, int),
                DecodeError,
            >((v, final(r).position())),
            res matches Err(e) ==> spec_face(old(r).bytes(), old(r).position(), *g) == Err::<
                (Face, int),
                DecodeError,
            >(e),
    {
        let a = match le_unsigned(r, g.vertex_index_size) {
            Ok(v) => v,
            Err(e) => {
                return Err(e);
            },
        };
        let b = match le_unsigned(r, g.vertex_index_size) {
            Ok(v) => v,
            Err(e) => {
                return Err(e);
            },
        };
        let c = match le_unsigned(r, g.vertex_index_size) {
            Ok(v) => v,
            Err(e) => {
                return Err(e);
            },
        };
        Ok(Face(a, b, c))
    }
}

/// The views of a vertex list.
pub open spec fn vertex_views(vs: Seq<Vertex>) -> Seq<VertexM> {
    vs.map_values(|v: Vertex| v@)
}

/// The views of a texture list.
pub open spec fn texture_views(ts: Seq<Texture>) -> Seq<Seq<char>> {
    ts.map_values(|t: Texture| t@)
}

/// The views of a material list.
pub open spec fn material_views(ms: Seq<Material>) -> Seq<MaterialM> {
    ms.map_values(|m: Material| m@)
}

/// The views of a bone list.
pub open spec fn bone_views(bs: Seq<Bone>) -> Seq<BoneM> {
    bs.map_values(|b: Bone| b@)
}

/// The views of a morph list.
pub open spec fn morph_views(ms: Seq<Morph>) -> Seq<MorphM> {
    ms.map_values(|m: Morph| m@)
}

/// The element parser of the vertex list.
pub open spec fn vertex_p(s: Seq<u8>, g: Globals) -> spec_fn(int) -> Result<
    (VertexM, int),
    DecodeError,
> {
    |i: int| crate::vertex::spec_vertex(s, i, g)
}

/// The element parser of the face list.
pub open spec fn face_p(s: Seq<u8>, g: Globals) -> spec_fn(int) -> Result<(Face, int), DecodeError> {
    |i: int| spec_face(s, i, g)
}

/// The element parser of the texture list.
pub open spec fn texture_p(s: Seq<u8>, g: Globals) -> spec_fn(int) -> Result<
    (Seq<char>, int),
    DecodeError,
> {
    |i: int| spec_pmx_string(s, i, g.encoding)
}

/// The element parser of the material list.
pub open spec fn material_p(s: Seq<u8>, g: Globals) -> spec_fn(int) -> Result<
    (MaterialM, int),
    DecodeError,
> {
    |i: int| crate::pmxmaterial::spec_material(s, i, g)
}

/// The element parser of the bone list.
pub open spec fn bone_p(s: Seq<u8>, g: Globals) -> spec_fn(int) -> Result<
    (BoneM, int),
    DecodeError,
> {
    |i: int| crate::pmxbone::spec_bone(s, i, g)
}

/// The element parser of the morph list.
pub open spec fn morph_p(s: Seq<u8>, g: Globals) -> spec_fn(int) -> Result<
    (MorphM, int),
    DecodeError,
> {
    |i: int| crate::morph::spec_morph(s, i, g)
}

/// Reads `n` vertices.
fn parse_vertices(r: &mut Reader, g: &Globals, n: u32) -> (res: Result<Vec<Vertex>, DecodeError>)
    requires
        old(r).wf(),
    ensures
        final(r).wf(),
        final(r).bytes() == old(r).bytes(),
        res matches Ok(vs) ==> spec_count(vertex_p(old(r).bytes(), *g), old(r).position(), n as nat)
            == Ok::<(Seq<VertexM>, int), DecodeError>((vertex_views(vs@), final(r).position())),
        res matches Err(e) ==> spec_count(
            vertex_p(old(r).bytes(), *g),
            old(r).position(),
            n as nat,
        ) == Err::<(Seq<VertexM>, int), DecodeError>(e),
{
    let ghost s = r.bytes();
    let ghost i0 = r.position();
    let mut out: Vec<Vertex> = Vec::new();
    proof {
        assert(vertex_views(out@) =~= Seq::<VertexM>::empty());
    }
    let mut k: u32 = 0;
    while k < n
        invariant
            r.wf(),
            r.bytes() == s,
            s == old(r).bytes(),
            i0 == old(r).position(),
            k <= n,
            spec_count(vertex_p(s, *g), i0, k as nat) == Ok::<(Seq<VertexM>, int), DecodeError>(
                (vertex_views(out@), r.position()),
            ),
        decreases n - k,
    {
        let ghost j = r.position();
        let ghost prev = out@;
        match Vertex::parse(r, g) {
            Ok(v) => {
                proof {
                    assert(vertex_p(s, *g)(j) == Ok::<(VertexM, int), DecodeError>(
                        (v@, r.position()),
                    ));
                    lemma_count_step(
                        vertex_p(s, *g),
                        i0,
                        k as nat,
                        vertex_views(prev),
                        j,
                        v@,
                        r.position(),
                    );
                }
                out.push(v);
                k = k + 1;
                proof {
                    assert(vertex_views(out@) =~= vertex_views(prev).push(out@.last()@));
                }
            },
            Err(e) => {
                proof {
                    assert(vertex_p(s, *g)(j) == Err::<(VertexM, int), DecodeError>(e));
                    lemma_count_step_err(
                        vertex_p(s, *g),
                        i0,
                        k as nat,
                        n as nat,
                        vertex_views(prev),
                        j,
                        e,
                    );
                }
                return Err(e);
            },
        }
    }
    Ok(out)
}

/// Reads `n` faces (`n` is the triangle count, already divided by three).
fn parse_faces(r: &mut Reader, g: &Globals, n: u32) -> (res: Result<Vec<Face>, DecodeError>)
    requires
        old(r).wf(),
    ensures
        final(r).wf(),
        final(r).bytes() == old(r).bytes(),
        res matches Ok(vs) ==> spec_count(face_p(old(r).bytes(), *g), old(r).position(), n as nat)
            == Ok::<(Seq<Face>, int), DecodeError>((vs@, final(r).position())),
        res matches Err(e) ==> spec_count(face_p(old(r).bytes(), *g), old(r).position(), n as nat)
            == Err::<(Seq<Face>, int), DecodeError>(e),
{
    let ghost s = r.bytes();
    let ghost i0 = r.position();
    let mut out: Vec<Face> = Vec::new();
    let mut k: u32 = 0;
    while k < n
        invariant
            r.wf(),
            r.bytes() == s,
            s == old(r).bytes(),
            i0 == old(r).position(),
            k <= n,
            spec_count(face_p(s, *g), i0, k as nat) == Ok::<(Seq<Face>, int), DecodeError>(
                (out@, r.position()),
            ),
        decreases n - k,
    {
        let ghost j = r.position();
        match Face::parse(r, g) {
            Ok(v) => {
                proof {
                    assert(face_p(s, *g)(j) == Ok::<(Face, int), DecodeError>((v, r.position())));
                    lemma_count_step(face_p(s, *g), i0, k as nat, out@, j, v, r.position());
                }
                out.push(v);
                k = k + 1;
            },
            Err(e) => {
                proof {
                    assert(face_p(s, *g)(j) == Err::<(Face, int), DecodeError>(e));
                    lemma_count_step_err(face_p(s, *g), i0, k as nat, n as nat, out@, j, e);
                }
                return Err(e);
            },
        }
    }
    Ok(out)
}

/// Reads `n` texture records.
fn parse_textures(r: &mut Reader, g: &Globals, n: u32) -> (res: Result<Vec<Texture>, DecodeError>)
    requires
        old(r).wf(),
        g.encoding == 0 || g.encoding == 1,
    ensures
        final(r).wf(),
        final(r).bytes() == old(r).bytes(),
        res matches Ok(vs) ==> spec_count(
            texture_p(old(r).bytes(), *g),
            old(r).position(),
            n as nat,
        ) == Ok::<(Seq<Seq<char>>, int), DecodeError>((texture_views(vs@), final(r).position())),
        res matches Err(e) ==> spec_count(
            texture_p(old(r).bytes(), *g),
            old(r).position(),
            n as nat,
        ) == Err::<(Seq<Seq<char>>, int), DecodeError>(e),
{
    let ghost s = r.bytes();
    let ghost i0 = r.position();
    let mut out: Vec<Texture> = Vec::new();
    proof {
        assert(texture_views(out@) =~= Seq::<Seq<char>>::empty());
    }
    let mut k: u32 = 0;
    while k < n
        invariant
            r.wf(),
            r.bytes() == s,
            s == old(r).bytes(),
            i0 == old(r).position(),
            g.encoding == 0 || g.encoding == 1,
            k <= n,
            spec_count(texture_p(s, *g), i0, k as nat) == Ok::<(Seq<Seq<char>>, int), DecodeError>(
                (texture_views(out@), r.position()),
            ),
        decreases n - k,
    {
        let ghost j = r.position();
        let ghost prev = out@;
        match Texture::parse(r, g.encoding) {
            Ok(v) => {
                proof {
                    assert(texture_p(s, *g)(j) == Ok::<(Seq<char>, int), DecodeError>(
                        (v@, r.position()),
                    ));
                    lemma_count_step(
                        texture_p(s, *g),
                        i0,
                        k as nat,
                        texture_views(prev),
                        j,
                        v@,
                        r.position(),
                    );
                }
                out.push(v);
                k = k + 1;
                proof {
                    assert(texture_views(out@) =~= texture_views(prev).push(out@.last()@));
                }
            },
            Err(e) => {
                proof {
                    assert(texture_p(s, *g)(j) == Err::<(Seq<char>, int), DecodeError>(e));
                    lemma_count_step_err(
                        texture_p(s, *g),
                        i0,
                        k as nat,
                        n as nat,
                        texture_views(prev),
                        j,
                        e,
                    );
                }
                return Err(e);
            },
        }
    }
    Ok(out)
}

/// Reads `n` materials.
fn parse_materials(r: &mut Reader, g: &Globals, n: u32) -> (res: Result<Vec<Material>, DecodeError>)
    requires
        old(r).wf(),
        g.encoding == 0 || g.encoding == 1,
    ensures
        final(r).wf(),
        final(r).bytes() == old(r).bytes(),
        res matches Ok(vs) ==> spec_count(
            material_p(old(r).bytes(), *g),
            old(r).position(),
            n as nat,
        ) == Ok::<(Seq<MaterialM>, int), DecodeError>((material_views(vs@), final(r).position())),
        res matches Err(e) ==> spec_count(
            material_p(old(r).bytes(), *g),
            old(r).position(),
            n as nat,
        ) == Err::<(Seq<MaterialM>, int), DecodeError>(e),
{
    let ghost s = r.bytes();
    let ghost i0 = r.position();
    let mut out: Vec<Material> = Vec::new();
    proof {
        assert(material_views(out@) =~= Seq::<MaterialM>::empty());
    }
    let mut k: u32 = 0;
    while k < n
        invariant
            r.wf(),
            r.bytes() == s,
            s == old(r).bytes(),
            i0 == old(r).position(),
            g.encoding == 0 || g.encoding == 1,
            k <= n,
            spec_count(material_p(s, *g), i0, k as nat) == Ok::<(Seq<MaterialM>, int), DecodeError>(
                (material_views(out@), r.position()),
            ),
        decreases n - k,
    {
        let ghost j = r.position();
        let ghost prev = out@;
        match Material::parse(r, g) {
            Ok(v) => {
                proof {
                    assert(material_p(s, *g)(j) == Ok::<(MaterialM, int), DecodeError>(
                        (v@, r.position()),
                    ));
                    lemma_count_step(
                        material_p(s, *g),
                        i0,
                        k as nat,
                        material_views(prev),
                        j,
                        v@,
                        r.position(),
                    );
                }
                out.push(v);
                k = k + 1;
                proof {
                    assert(material_views(out@) =~= material_views(prev).push(out@.last()@));
                }
            },
            Err(e) => {
                proof {
                    assert(material_p(s, *g)(j) == Err::<(MaterialM, int), DecodeError>(e));
                    lemma_count_step_err(
                        material_p(s, *g),
                        i0,
                        k as nat,
                        n as nat,
                        material_views(prev),
                        j,
                        e,
                    );
                }
                return Err(e);
            },
        }
    }
    Ok(out)
}

/// Reads `n` bones.
fn parse_bones(r: &mut Reader, g: &Globals, n: u32) -> (res: Result<Vec<Bone>, DecodeError>)
    requires
        old(r).wf(),
        g.encoding == 0 || g.encoding == 1,
    ensures
        final(r).wf(),
        final(r).bytes() == old(r).bytes(),
        res matches Ok(vs) ==> spec_count(bone_p(old(r).bytes(), *g), old(r).position(), n as nat)
            == Ok::<(Seq<BoneM>, int), DecodeError>((bone_views(vs@), final(r).position())),
        res matches Err(e) ==> spec_count(bone_p(old(r).bytes(), *g), old(r).position(), n as nat)
            == Err::<(Seq<BoneM>, int), DecodeError>(e),
{
    let ghost s = r.bytes();
    let ghost i0 = r.position();
    let mut out: Vec<Bone> = Vec::new();
    proof {
        assert(bone_views(out@) =~= Seq::<BoneM>::empty());
    }
    let mut k: u32 = 0;
    while k < n
        invariant
            r.wf(),
            r.bytes() == s,
            s == old(r).bytes(),
            i0 == old(r).position(),
            g.encoding == 0 || g.encoding == 1,
            k <= n,
            spec_count(bone_p(s, *g), i0, k as nat) == Ok::<(Seq<BoneM>, int), DecodeError>(
                (bone_views(out@), r.position()),
            ),
        decreases n - k,
    {
        let ghost j = r.position();
        let ghost prev = out@;
        match Bone::parse(r, g) {
            Ok(v) => {
                proof {
                    assert(bone_p(s, *g)(j) == Ok::<(BoneM, int), DecodeError>(
                        (v@, r.position()),
                    ));
                    lemma_count_step(
                        bone_p(s, *g),
                        i0,
                        k as nat,
                        bone_views(prev),
                        j,
                        v@,
                        r.position(),
                    );
                }
                out.push(v);
                k = k + 1;
                proof {
                    assert(bone_views(out@) =~= bone_views(prev).push(out@.last()@));
                }
            },
            Err(e) => {
                proof {
                    assert(bone_p(s, *g)(j) == Err::<(BoneM, int), DecodeError>(e));
                    lemma_count_step_err(
                        bone_p(s, *g),
                        i0,
                        k as nat,
                        n as nat,
                        bone_views(prev),
                        j,
                        e,
                    );
                }
                return Err(e);
            },
        }
    }
    Ok(out)
}

/// Reads `n` morphs.
fn parse_morphs(r: &mut Reader, g: &Globals, n: u32) -> (res: Result<Vec<Morph>, DecodeError>)
    requires
        old(r).wf(),
        g.encoding == 0 || g.encoding == 1,
    ensures
        final(r).wf(),
        final(r).bytes() == old(r).bytes(),
        res matches Ok(vs) ==> spec_count(morph_p(old(r).bytes(), *g), old(r).position(), n as nat)
            == Ok::<(Seq<MorphM>, int), DecodeError>((morph_views(vs@), final(r).position())),
        res matches Err(e) ==> spec_count(morph_p(old(r).bytes(), *g), old(r).position(), n as nat)
            == Err::<(Seq<MorphM>, int), DecodeError>(e),
{
    let ghost s = r.bytes();
    let ghost i0 = r.position();
    let mut out: Vec<Morph> = Vec::new();
    proof {
        assert(morph_views(out@) =~= Seq::<MorphM>::empty());
    }
    let mut k: u32 = 0;
    while k < n
        invariant
            r.wf(),
            r.bytes() == s,
            s == old(r).bytes(),
            i0 == old(r).position(),
            g.encoding == 0 || g.encoding == 1,
            k <= n,
            spec_count(morph_p(s, *g), i0, k as nat) == Ok::<(Seq<MorphM>, int), DecodeError>(
                (morph_views(out@), r.position()),
            ),
        decreases n - k,
    {
        let ghost j = r.position();
        let ghost prev = out@;
        match Morph::parse(r, g) {
            Ok(v) => {
                proof {
                    assert(morph_p(s, *g)(j) == Ok::<(MorphM, int), DecodeError>(
                        (v@, r.position()),
                    ));
                    lemma_count_step(
                        morph_p(s, *g),
                        i0,
                        k as nat,
                        morph_views(prev),
                        j,
                        v@,
                        r.position(),
                    );
                }
                out.push(v);
                k = k + 1;
                proof {
                    assert(morph_views(out@) =~= morph_views(prev).push(out@.last()@));
                }
            },
            Err(e) => {
                proof {
                    assert(morph_p(s, *g)(j) == Err::<(MorphM, int), DecodeError>(e));
                    lemma_count_step_err(
                        morph_p(s, *g),
                        i0,
                        k as nat,
                        n as nat,
                        morph_views(prev),
                        j,
                        e,
                    );
                }
                return Err(e);
            },
        }
    }
    Ok(out)
}

} // verus!

verus! {

/// The record collections of a parsed file, each in file order.
#[derive(Debug, Clone, PartialEq, Eq)]
pub struct Model {
    pub vertices: Vec<Vertex>,
    pub faces: Vec<Face>,
    pub textures: Vec<Texture>,
    pub materials: Vec<Material>,
    pub bones: Vec<Bone>,
    pub morphs: Vec<Morph>,
}

/// The mathematical value of a [`Model`].
pub struct ModelM {
    pub vertices: Seq<VertexM>,
    pub faces: Seq<Face>,
    pub textures: Seq<Seq<char>>,
    pub materials: Seq<MaterialM>,
    pub bones: Seq<BoneM>,
    pub morphs: Seq<MorphM>,
}

impl View for Model {
    type V = ModelM;

    open spec fn view(&self) -> ModelM {
        ModelM {
            vertices: vertex_views(self.vertices@),
            faces: self.faces@,
            textures: texture_views(self.textures@),
            materials: material_views(self.materials@),
            bones: bone_views(self.bones@),
            morphs: morph_views(self.morphs@),
        }
    }
}

/// The six record lists read at `i` in file order, each prefixed by its u32
/// count.  The face count field holds the number of face-index integers, a
/// multiple of three; the triangle count is that value divided by three.
pub open spec fn spec_model(s: Seq<u8>, i: int, g: Globals) -> Result<(ModelM, int), DecodeError> {
    match spec_u32(s, i) {
        Ok((nv, i1)) => match spec_count(vertex_p(s, g), i1, nv as nat) {
            Ok((vertices, i2)) => match spec_u32(s, i2) {
                Ok((nfi, i3)) => match spec_count(face_p(s, g), i3, (nfi / 3) as nat) {
                    Ok((faces, i4)) => match spec_u32(s, i4) {
                        Ok((nt, i5)) => match spec_count(texture_p(s, g), i5, nt as nat) {
                            Ok((textures, i6)) => match spec_u32(s, i6) {
                                Ok((nm, i7)) => match spec_count(material_p(s, g), i7, nm as nat) {
                                    Ok((materials, i8)) => match spec_u32(s, i8) {
                                        Ok((nb, i9)) => match spec_count(
                                            bone_p(s, g),
                                            i9,
                                            nb as nat,
                                        ) {
                                            Ok((bones, i10)) => match spec_u32(s, i10) {
                                                Ok((nmo, i11)) => match spec_count(
                                                    morph_p(s, g),
                                                    i11,
                                                    nmo as nat,
                                                ) {
                                                    Ok((morphs, j)) => Ok(
                                                        (
                                                            ModelM {
                                                                vertices,
                                                                faces,
                                                                textures,
                                                                materials,
                                                                bones,
                                                                morphs,
                                                            },
                                                            j,
                                                        ),
                                                    ),
                                                    Err(e) => Err(e),
                                                },
                                                Err(e) => Err(e),
                                            },
                                            Err(e) => Err(e),
                                        },
                                        Err(e) => Err(e),
                                    },
                                    Err(e) => Err(e),
                                },
                                Err(e) => Err(e),
                            },
                            Err(e) => Err(e),
                        },
                        Err(e) => Err(e),
                    },
                    Err(e) => Err(e),
                },
                Err(e) => Err(e),
            },
            Err(e) => Err(e),
        },
        Err(e) => Err(e),
    }
}

impl Model {
    /// Reads the six record lists in file order under the Globals fixed at
    /// header time.
    pub fn parse(r: &mut Reader, g: &Globals) -> (res: Result<Model, DecodeError>)
        requires
            old(r).wf(),
            g.encoding == 0 || g.encoding == 1,
        ensures
            final(r).wf(),
            final(r).bytes() == old(r).bytes(),
            res matches Ok(v) ==> spec_model(old(r).bytes(), old(r).position(), *g) == Ok::<
                (ModelM, int),
                DecodeError,
            >((v@, final(r).position())),
            res matches Err(e) ==> spec_model(old(r).bytes(), old(r).position(), *g) == Err::<
                (ModelM, int),
                DecodeError,
            >(e),
    {
        let nv = match r.read_u32() {
            Ok(v) => v,
            Err(e) => {
                return Err(e);
            },
        };
        let vertices = match parse_vertices(r, g, nv) {
            Ok(v) => v,
            Err(e) => {
                return Err(e);
            },
        };
        let nfi = match r.read_u32() {
            Ok(v) => v,
            Err(e) => {
                return Err(e);
            },
        };
        let faces = match parse_faces(r, g, nfi / 3) {
            Ok(v) => v,
            Err(e) => {
                return Err(e);
            },
        };
        let nt = match r.read_u32() {
            Ok(v) => v,
            Err(e) => {
                return Err(e);
            },
        };
        let textures = match parse_textures(r, g, nt) {
            Ok(v) => v,
            Err(e) => {
                return Err(e);
            },
        };
        let nm = match r.read_u32() {
            Ok(v) => v,
            Err(e) => {
                return Err(e);
            },
        };
        let materials = match parse_materials(r, g, nm) {
            Ok(v) => v,
            Err(e) => {
                return Err(e);
            },
        };
        let nb = match r.read_u32() {
            Ok(v) => v,
            Err(e) => {
                return Err(e);
            },
        };
        let bones = match parse_bones(r, g, nb) {
            Ok(v) => v,
            Err(e) => {
                return Err(e);
            },
        };
        let nmo = match r.read_u32() {
            Ok(v) => v,
            Err(e) => {
                return Err(e);
            },
        };
        let morphs = match parse_morphs(r, g, nmo) {
            Ok(v) => v,
            Err(e) => {
                return Err(e);
            },
        };
        Ok(Model { vertices, faces, textures, materials, bones, morphs })
    }
}

/// The sum of the materials' vertex-index counts.
pub open spec fn material_index_sum(ms: Seq<MaterialM>) -> int
    decreases ms.len(),
{
    if ms.len() == 0 {
        0
    } else {
        material_index_sum(ms.drop_last()) + ms.last().num_vertex_indices
    }
}

impl Model {
    /// Whether the materials partition the face list exactly: the sum of
    /// all materials' vertex-index counts equals three times the triangle
    /// count.  A well-formed file satisfies this; decoding does not enforce
    /// it, so a consumer checks it here before batching faces by material.
    pub fn face_count_consistent(&self) -> (r: bool)
        ensures
            r == (material_index_sum(material_views(self.materials@)) == 3 * self.faces@.len()),
    {
        let n = self.materials.len();
        let mut acc: i128 = 0;
        let mut k: usize = 0;
        while k < n
            invariant
                n == self.materials.len(),
                k <= n,
                acc == material_index_sum(
                    material_views(self.materials@.subrange(0, k as int)),
                ),
                -0x8000_0000 * (k as int) <= acc <= 0x7FFF_FFFF * (k as int),
            decreases n - k,
        {
            let ghost pre = material_views(self.materials@.subrange(0, k as int));
            acc = acc + (self.materials[k].num_vertex_indices as i128);
            k = k + 1;
            proof {
                let cur = material_views(self.materials@.subrange(0, k as int));
                assert(cur.drop_last() =~= pre);
                assert(cur.last() == self.materials@[k - 1]@);
            }
        }
        proof {
            assert(self.materials@.subrange(0, n as int) =~= self.materials@);
        }
        acc == 3 * (self.faces.len() as i128)
    }
}

/// A parsed PMX file: the header and the record collections.  Any bytes
/// after the morph list (sections out of this decoder's scope) are left
/// unread.
#[derive(Debug, Clone, PartialEq, Eq)]
pub struct Pmx {
    pub header: Header,
    pub model: Model,
}

/// The mathematical value of a [`Pmx`].
pub struct PmxM {
    pub header: HeaderM,
    pub model: ModelM,
}

impl View for Pmx {
    type V = PmxM;

    open spec fn view(&self) -> PmxM {
        PmxM { header: self.header@, model: self.model@ }
    }
}

/// A whole file read from its first byte: the header, then the six record
/// lists under the header's Globals.
pub open spec fn spec_pmx(s: Seq<u8>) -> Result<(PmxM, int), DecodeError> {
    match spec_header(s, 0) {
        Ok((header, i)) => match spec_model(s, i, header.globals) {
            Ok((model, j)) => Ok((PmxM { header, model }, j)),
            Err(e) => Err(e),
        },
        Err(e) => Err(e),
    }
}

impl Pmx {
    /// Decodes a whole PMX byte stream: the header, then every record list,
    /// fail-fast.  The first anomaly anywhere yields its error and no
    /// partial result.
    pub fn parse(input: &[u8]) -> (res: Result<Pmx, DecodeError>)
        ensures
            res matches Ok(p) ==> (spec_pmx(input@) matches Ok(q) && q.0 == p@),
            res matches Err(e) ==> spec_pmx(input@) == Err::<(PmxM, int), DecodeError>(e),
    {
        let data = slice_to_vec(input);
        let mut r = Reader::new(data);
        let header = match Header::parse(&mut r) {
            Ok(v) => v,
            Err(e) => {
                return Err(e);
            },
        };
        let model = match Model::parse(&mut r, &header.globals) {
            Ok(v) => v,
            Err(e) => {
                return Err(e);
            },
        };
        Ok(Pmx { header, model })
    }
}

} // verus!
