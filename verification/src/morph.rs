use crate::error::DecodeError;
use crate::globals::Globals;
use crate::pmxindex::{le_unsigned, spec_index, spec_le_unsigned, Index};
use crate::pmxstring::{spec_name, Name, NameM};
use crate::reader::{spec_u32, spec_u8, Reader};
use crate::repeat::{lemma_count_step, lemma_count_step_err, spec_count};
use crate::vecs::{spec_vec3, spec_vec4, Vec3, Vec4};
use vstd::prelude::*;

verus! {

/// The morph type: an 11-value closed enumeration selecting which of the
/// seven payload shapes the record carries.  The four AddUV types share the
/// UV payload shape, reading from the numbered additional attribute.
#[derive(Clone, Copy, Debug, PartialEq, Eq, Structural)]
pub enum MorphType {
    Group,
    Position,
    Bone,
    UV,
    AddUV1,
    AddUV2,
    AddUV3,
    AddUV4,
    Material,
    Flip,
    Impulse,
}

/// The MorphType of the ordinal byte `t`, or `None` outside 0-10.
pub open spec fn spec_morph_type(t: u8) -> Option<MorphType> {
    if t == 0 {
        Some(MorphType::Group)
    } else if t == 1 {
        Some(MorphType::Position)
    } else if t == 2 {
        Some(MorphType::Bone)
    } else if t == 3 {
        Some(MorphType::UV)
    } else if t == 4 {
        Some(MorphType::AddUV1)
    } else if t == 5 {
        Some(MorphType::AddUV2)
    } else if t == 6 {
        Some(MorphType::AddUV3)
    } else if t == 7 {
        Some(MorphType::AddUV4)
    } else if t == 8 {
        Some(MorphType::Material)
    } else if t == 9 {
        Some(MorphType::Flip)
    } else if t == 10 {
        Some(MorphType::Impulse)
    } else {
        None
    }
}

impl MorphType {
    /// Maps the stored ordinal byte to the type, `None` outside 0-10.
    pub fn from_u8(t: u8) -> (r: Option<MorphType>)
        ensures
            r == spec_morph_type(t),
    {
        if t == 0 {
            Some(MorphType::Group)
        } else if t == 1 {
            Some(MorphType::Position)
        } else if t == 2 {
            Some(MorphType::Bone)
        } else if t == 3 {
            Some(MorphType::UV)
        } else if t == 4 {
            Some(MorphType::AddUV1)
        } else if t == 5 {
            Some(MorphType::AddUV2)
        } else if t == 6 {
            Some(MorphType::AddUV3)
        } else if t == 7 {
            Some(MorphType::AddUV4)
        } else if t == 8 {
            Some(MorphType::Material)
        } else if t == 9 {
            Some(MorphType::Flip)
        } else if t == 10 {
            Some(MorphType::Impulse)
        } else {
            None
        }
    }
}

/// A group-morph element: a member morph and its influence weight (raw f32
/// bit pattern).
#[derive(Clone, Copy, Debug, PartialEq, Eq)]
pub struct GroupMorph {
    pub index: Index,
    pub weight: u32,
}

/// A position-morph element: a vertex (unsigned vertex-index rule) and its
/// translation offset.
#[derive(Clone, Copy, Debug, PartialEq, Eq)]
pub struct PositionMorph {
    pub index: i32,
    pub offset: Vec3,
}

/// A bone-morph element: a bone, a translation and a rotation quaternion.
#[derive(Clone, Copy, Debug, PartialEq, Eq)]
pub struct BoneMorph {
    pub index: Index,
    pub translation: Vec3,
    pub rotation: Vec4,
}

/// A UV-morph element: a vertex (unsigned vertex-index rule) and a 4-wide
/// offset.
#[derive(Clone, Copy, Debug, PartialEq, Eq)]
pub struct UVMorph {
    pub index: i32,
    pub offset: Vec4,
}

/// A material-morph element: a material (or -1 for all), the 1-byte offset
/// operation as stored, and the full set of tint parameters as raw f32 bit
/// patterns.
#[derive(Clone, Copy, Debug, PartialEq, Eq)]
pub struct MaterialMorph {
    pub index: Index,
    pub op: u8,
    pub diffuse: Vec4,
    pub specular: Vec3,
    pub intensity: u32,
    pub ambient: Vec3,
    pub edge_color: Vec4,
    pub edge_size: u32,
    pub texture_tint: Vec4,
    pub sphere_tint: Vec4,
    pub toon_tint: Vec4,
}

/// A flip-morph element: a member morph and its weight.
#[derive(Clone, Copy, Debug, PartialEq, Eq)]
pub struct FlipMorph {
    pub index: Index,
    pub weight: u32,
}

/// An impulse-morph element: a rigidbody, the 1-byte local flag as stored,
/// a velocity and a torque.
#[derive(Clone, Copy, Debug, PartialEq, Eq)]
pub struct ImpulseMorph {
    pub index: Index,
    pub local: u8,
    pub velocity: Vec3,
    pub torque: Vec3,
}

/// One group-morph element read at `i`.
pub open spec fn spec_group_morph(s: Seq<u8>, i: int, g: Globals) -> Result<
    (GroupMorph, int),
    DecodeError,
> {
    match spec_index(s, i, g.morph_index_size) {
        Ok((index, i1)) => match spec_u32(s, i1) {
            Ok((weight, j)) => Ok((GroupMorph { index, weight }, j)),
            Err(e) => Err(e),
        },
        Err(e) => Err(e),
    }
}

/// One position-morph element read at `i`.
pub open spec fn spec_position_morph(s: Seq<u8>, i: int, g: Globals) -> Result<
    (PositionMorph, int),
    DecodeError,
> {
    match spec_le_unsigned(s, i, g.vertex_index_size) {
        Ok((index, i1)) => match spec_vec3(s, i1) {
            Ok((offset, j)) => Ok((PositionMorph { index, offset }, j)),
            Err(e) => Err(e),
        },
        Err(e) => Err(e),
    }
}

/// One bone-morph element read at `i`.
pub open spec fn spec_bone_morph(s: Seq<u8>, i: int, g: Globals) -> Result<
    (BoneMorph, int),
    DecodeError,
> {
    match spec_index(s, i, g.bone_index_size) {
        Ok((index, i1)) => match spec_vec3(s, i1) {
            Ok((translation, i2)) => match spec_vec4(s, i2) {
                Ok((rotation, j)) => Ok((BoneMorph { index, translation, rotation }, j)),
                Err(e) => Err(e),
            },
            Err(e) => Err(e),
        },
        Err(e) => Err(e),
    }
}

/// One UV-morph element read at `i`.
pub open spec fn spec_uv_morph(s: Seq<u8>, i: int, g: Globals) -> Result<
    (UVMorph, int),
    DecodeError,
> {
    match spec_le_unsigned(s, i, g.vertex_index_size) {
        Ok((index, i1)) => match spec_vec4(s, i1) {
            Ok((offset, j)) => Ok((UVMorph { index, offset }, j)),
            Err(e) => Err(e),
        },
        Err(e) => Err(e),
    }
}

/// One material-morph element read at `i`.
pub open spec fn spec_material_morph(s: Seq<u8>, i: int, g: Globals) -> Result<
    (MaterialMorph, int),
    DecodeError,
> {
    match spec_index(s, i, g.material_index_size) {
        Ok((index, i1)) => match spec_u8(s, i1) {
            Ok((op, i2)) => match spec_vec4(s, i2) {
                Ok((diffuse, i3)) => match spec_vec3(s, i3) {
                    Ok((specular, i4)) => match spec_u32(s, i4) {
                        Ok((intensity, i5)) => match spec_vec3(s, i5) {
                            Ok((ambient, i6)) => match spec_vec4(s, i6) {
                                Ok((edge_color, i7)) => match spec_u32(s, i7) {
                                    Ok((edge_size, i8)) => match spec_vec4(s, i8) {
                                        Ok((texture_tint, i9)) => match spec_vec4(s, i9) {
                                            Ok((sphere_tint, i10)) => match spec_vec4(s, i10) {
                                                Ok((toon_tint, j)) => Ok(
                                                    (
                                                        MaterialMorph {
                                                            index,
                                                            op,
                                                            diffuse,
                                                            specular,
                                                            intensity,
                                                            ambient,
                                                            edge_color,
                                                            edge_size,
                                                            texture_tint,
                                                            sphere_tint,
                                                            toon_tint,
                                                        },
                                                        j,
                                                    ),
                                                ),
                                                Err(e) => Err(e),
                                            },
                                            Err(e) => Err(e),
                                        },
                                        Err(e) => Err(e),
                                    },
                                    Err(e) => Err(e),
                                },
                                Err(e) => Err(e),
                            },
                            Err(e) => Err(e),
                        },
                        Err(e) => Err(e),
                    },
                    Err(e) => Err(e),
                },
                Err(e) => Err(e),
            },
            Err(e) => Err(e),
        },
        Err(e) => Err(e),
    }
}

/// One flip-morph element read at `i`.
pub open spec fn spec_flip_morph(s: Seq<u8>, i: int, g: Globals) -> Result<
    (FlipMorph, int),
    DecodeError,
> {
    match spec_index(s, i, g.morph_index_size) {
        Ok((index, i1)) => match spec_u32(s, i1) {
            Ok((weight, j)) => Ok((FlipMorph { index, weight }, j)),
            Err(e) => Err(e),
        },
        Err(e) => Err(e),
    }
}

/// One impulse-morph element read at `i`.
pub open spec fn spec_impulse_morph(s: Seq<u8>, i: int, g: Globals) -> Result<
    (ImpulseMorph, int),
    DecodeError,
> {
    match spec_index(s, i, g.rigidbody_index_size) {
        Ok((index, i1)) => match spec_u8(s, i1) {
            Ok((local, i2)) => match spec_vec3(s, i2) {
                Ok((velocity, i3)) => match spec_vec3(s, i3) {
                    Ok((torque, j)) => Ok((ImpulseMorph { index, local, velocity, torque }, j)),
                    Err(e) => Err(e),
                },
                Err(e) => Err(e),
            },
            Err(e) => Err(e),
        },
        Err(e) => Err(e),
    }
}

impl GroupMorph {
    /// Reads one group-morph element.
    pub fn parse(r: &mut Reader, g: &Globals) -> (res: Result<GroupMorph, DecodeError>)
        requires
            old(r).wf(),
        ensures
            final(r).wf(),
            final(r).bytes() == old(r).bytes(),
            res matches Ok(v) ==> spec_group_morph(old(r).bytes(), old(r).position(), *g) == Ok::<
                (GroupMorph, int),
                DecodeError,
            >((v, final(r).position())),
            res matches Err(e) ==> spec_group_morph(old(r).bytes(), old(r).position(), *g) == Err::<
                (GroupMorph, int),
                DecodeError,
            >(e),
    {
        let index = match Index::decode(r, g.morph_index_size) {
            Ok(v) => v,
            Err(e) => {
                return Err(e);
            },
        };
        let weight = match r.read_u32() {
            Ok(v) => v,
            Err(e) => {
                return Err(e);
            },
        };
        Ok(GroupMorph { index, weight })
    }
}

impl PositionMorph {
    /// Reads one position-morph element.
    pub fn parse(r: &mut Reader, g: &Globals) -> (res: Result<PositionMorph, DecodeError>)
        requires
            old(r).wf(),
        ensures
            final(r).wf(),
            final(r).bytes() == old(r).bytes(),
            res matches Ok(v) ==> spec_position_morph(old(r).bytes(), old(r).position(), *g)
                == Ok::<(PositionMorph, int), DecodeError>((v, final(r).position())),
            res matches Err(e) ==> spec_position_morph(old(r).bytes(), old(r).position(), *g)
                == Err::<(PositionMorph, int), DecodeError>(e),
    {
        let index = match le_unsigned(r, g.vertex_index_size) {
            Ok(v) => v,
            Err(e) => {
                return Err(e);
            },
        };
        let offset = match Vec3::parse(r) {
            Ok(v) => v,
            Err(e) => {
                return Err(e);
            },
        };
        Ok(PositionMorph { index, offset })
    }
}

impl BoneMorph {
    /// Reads one bone-morph element.
    pub fn parse(r: &mut Reader, g: &Globals) -> (res: Result<BoneMorph, DecodeError>)
        requires
            old(r).wf(),
        ensures
            final(r).wf(),
            final(r).bytes() == old(r).bytes(),
            res matches Ok(v) ==> spec_bone_morph(old(r).bytes(), old(r).position(), *g) == Ok::<
                (BoneMorph, int),
                DecodeError,
            >((v, final(r).position())),
            res matches Err(e) ==> spec_bone_morph(old(r).bytes(), old(r).position(), *g) == Err::<
                (BoneMorph, int),
                DecodeError,
            >(e),
    {
        let index = match Index::decode(r, g.bone_index_size) {
            Ok(v) => v,
            Err(e) => {
                return Err(e);
            },
        };
        let translation = match Vec3::parse(r) {
            Ok(v) => v,
            Err(e) => {
                return Err(e);
            },
        };
        let rotation = match Vec4::parse(r) {
            Ok(v) => v,
            Err(e) => {
                return Err(e);
            },
        };
        Ok(BoneMorph { index, translation, rotation })
    }
}

impl UVMorph {
    /// Reads one UV-morph element.
    pub fn parse(r: &mut Reader, g: &Globals) -> (res: Result<UVMorph, DecodeError>)
        requires
            old(r).wf(),
        ensures
            final(r).wf(),
            final(r).bytes() == old(r).bytes(),
            res matches Ok(v) ==> spec_uv_morph(old(r).bytes(), old(r).position(), *g) == Ok::<
                (UVMorph, int),
                DecodeError,
            >((v, final(r).position())),
            res matches Err(e) ==> spec_uv_morph(old(r).bytes(), old(r).position(), *g) == Err::<
                (UVMorph, int),
                DecodeError,
            >(e),
    {
        let index = match le_unsigned(r, g.vertex_index_size) {
            Ok(v) => v,
            Err(e) => {
                return Err(e);
            },
        };
        let offset = match Vec4::parse(r) {
            Ok(v) => v,
            Err(e) => {
                return Err(e);
            },
        };
        Ok(UVMorph { index, offset })
    }
}

impl MaterialMorph {
    /// Reads one material-morph element.
    pub fn parse(r: &mut Reader, g: &Globals) -> (res: Result<MaterialMorph, DecodeError>)
        requires
            old(r).wf(),
        ensures
            final(r).wf(),
            final(r).bytes() == old(r).bytes(),
            res matches Ok(v) ==> spec_material_morph(old(r).bytes(), old(r).position(), *g)
                == Ok::<(MaterialMorph, int), DecodeError>((v, final(r).position())),
            res matches Err(e) ==> spec_material_morph(old(r).bytes(), old(r).position(), *g)
                == Err::<(MaterialMorph, int), DecodeError>(e),
    {
        let index = match Index::decode(r, g.material_index_size) {
            Ok(v) => v,
            Err(e) => {
                return Err(e);
            },
        };
        let op = match r.read_u8() {
            Ok(v) => v,
            Err(e) => {
                return Err(e);
            },
        };
        let diffuse = match Vec4::parse(r) {
            Ok(v) => v,
            Err(e) => {
                return Err(e);
            },
        };
        let specular = match Vec3::parse(r) {
            Ok(v) => v,
            Err(e) => {
                return Err(e);
            },
        };
        let intensity = match r.read_u32() {
            Ok(v) => v,
            Err(e) => {
                return Err(e);
            },
        };
        let ambient = match Vec3::parse(r) {
            Ok(v) => v,
            Err(e) => {
                return Err(e);
            },
        };
        let edge_color = match Vec4::parse(r) {
            Ok(v) => v,
            Err(e) => {
                return Err(e);
            },
        };
        let edge_size = match r.read_u32() {
            Ok(v) => v,
            Err(e) => {
                return Err(e);
            },
        };
        let texture_tint = match Vec4::parse(r) {
            Ok(v) => v,
            Err(e) => {
                return Err(e);
            },
        };
        let sphere_tint = match Vec4::parse(r) {
            Ok(v) => v,
            Err(e) => {
                return Err(e);
            },
        };
        let toon_tint = match Vec4::parse(r) {
            Ok(v) => v,
            Err(e) => {
                return Err(e);
            },
        };
        Ok(
            MaterialMorph {
                index,
                op,
                diffuse,
                specular,
                intensity,
                ambient,
                edge_color,
                edge_size,
                texture_tint,
                sphere_tint,
                toon_tint,
            },
        )
    }
}

impl FlipMorph {
    /// Reads one flip-morph element.
    pub fn parse(r: &mut Reader, g: &Globals) -> (res: Result<FlipMorph, DecodeError>)
        requires
            old(r).wf(),
        ensures
            final(r).wf(),
            final(r).bytes() == old(r).bytes(),
            res matches Ok(v) ==> spec_flip_morph(old(r).bytes(), old(r).position(), *g) == Ok::<
                (FlipMorph, int),
                DecodeError,
            >((v, final(r).position())),
            res matches Err(e) ==> spec_flip_morph(old(r).bytes(), old(r).position(), *g) == Err::<
                (FlipMorph, int),
                DecodeError,
            >(e),
    {
        let index = match Index::decode(r, g.morph_index_size) {
            Ok(v) => v,
            Err(e) => {
                return Err(e);
            },
        };
        let weight = match r.read_u32() {
            Ok(v) => v,
            Err(e) => {
                return Err(e);
            },
        };
        Ok(FlipMorph { index, weight })
    }
}

impl ImpulseMorph {
    /// Reads one impulse-morph element.
    pub fn parse(r: &mut Reader, g: &Globals) -> (res: Result<ImpulseMorph, DecodeError>)
        requires
            old(r).wf(),
        ensures
            final(r).wf(),
            final(r).bytes() == old(r).bytes(),
            res matches Ok(v) ==> spec_impulse_morph(old(r).bytes(), old(r).position(), *g)
                == Ok::<(ImpulseMorph, int), DecodeError>((v, final(r).position())),
            res matches Err(e) ==> spec_impulse_morph(old(r).bytes(), old(r).position(), *g)
                == Err::<(ImpulseMorph, int), DecodeError>(e),
    {
        let index = match Index::decode(r, g.rigidbody_index_size) {
            Ok(v) => v,
            Err(e) => {
                return Err(e);
            },
        };
        let local = match r.read_u8() {
            Ok(v) => v,
            Err(e) => {
                return Err(e);
            },
        };
        let velocity = match Vec3::parse(r) {
            Ok(v) => v,
            Err(e) => {
                return Err(e);
            },
        };
        let torque = match Vec3::parse(r) {
            Ok(v) => v,
            Err(e) => {
                return Err(e);
            },
        };
        Ok(ImpulseMorph { index, local, velocity, torque })
    }
}

} // verus!

verus! {

/// The element parser of a group-morph list.
pub open spec fn group_morph_p(s: Seq<u8>, g: Globals) -> spec_fn(int) -> Result<
    (GroupMorph, int),
    DecodeError,
> {
    |i: int| spec_group_morph(s, i, g)
}

/// The element parser of a position-morph list.
pub open spec fn position_morph_p(s: Seq<u8>, g: Globals) -> spec_fn(int) -> Result<
    (PositionMorph, int),
    DecodeError,
> {
    |i: int| spec_position_morph(s, i, g)
}

/// The element parser of a bone-morph list.
pub open spec fn bone_morph_p(s: Seq<u8>, g: Globals) -> spec_fn(int) -> Result<
    (BoneMorph, int),
    DecodeError,
> {
    |i: int| spec_bone_morph(s, i, g)
}

/// The element parser of a UV-morph list.
pub open spec fn uv_morph_p(s: Seq<u8>, g: Globals) -> spec_fn(int) -> Result<
    (UVMorph, int),
    DecodeError,
> {
    |i: int| spec_uv_morph(s, i, g)
}

/// The element parser of a material-morph list.
pub open spec fn material_morph_p(s: Seq<u8>, g: Globals) -> spec_fn(int) -> Result<
    (MaterialMorph, int),
    DecodeError,
> {
    |i: int| spec_material_morph(s, i, g)
}

/// The element parser of a flip-morph list.
pub open spec fn flip_morph_p(s: Seq<u8>, g: Globals) -> spec_fn(int) -> Result<
    (FlipMorph, int),
    DecodeError,
> {
    |i: int| spec_flip_morph(s, i, g)
}

/// The element parser of an impulse-morph list.
pub open spec fn impulse_morph_p(s: Seq<u8>, g: Globals) -> spec_fn(int) -> Result<
    (ImpulseMorph, int),
    DecodeError,
> {
    |i: int| spec_impulse_morph(s, i, g)
}

/// Reads `n` group-morph elements.
fn parse_group_morphs(r: &mut Reader, g: &Globals, n: u32) -> (res: Result<
    Vec<GroupMorph>,
    DecodeError,
>)
    requires
        old(r).wf(),
    ensures
        final(r).wf(),
        final(r).bytes() == old(r).bytes(),
        res matches Ok(vs) ==> spec_count(
            group_morph_p(old(r).bytes(), *g),
            old(r).position(),
            n as nat,
        ) == Ok::<(Seq<GroupMorph>, int), DecodeError>((vs@, final(r).position())),
        res matches Err(e) ==> spec_count(
            group_morph_p(old(r).bytes(), *g),
            old(r).position(),
            n as nat,
        ) == Err::<(Seq<GroupMorph>, int), DecodeError>(e),
{
    let ghost s = r.bytes();
    let ghost i0 = r.position();
    let mut out: Vec<GroupMorph> = Vec::new();
    let mut k: u32 = 0;
    while k < n
        invariant
            r.wf(),
            r.bytes() == s,
            s == old(r).bytes(),
            i0 == old(r).position(),
            k <= n,
            spec_count(group_morph_p(s, *g), i0, k as nat) == Ok::<
                (Seq<GroupMorph>, int),
                DecodeError,
            >((out@, r.position())),
        decreases n - k,
    {
        let ghost j = r.position();
        match GroupMorph::parse(r, g) {
            Ok(v) => {
                proof {
                    assert(group_morph_p(s, *g)(j) == Ok::<(GroupMorph, int), DecodeError>(
                        (v, r.position()),
                    ));
                    lemma_count_step(group_morph_p(s, *g), i0, k as nat, out@, j, v, r.position());
                }
                out.push(v);
                k = k + 1;
            },
            Err(e) => {
                proof {
                    assert(group_morph_p(s, *g)(j) == Err::<(GroupMorph, int), DecodeError>(e));
                    lemma_count_step_err(group_morph_p(s, *g), i0, k as nat, n as nat, out@, j, e);
                }
                return Err(e);
            },
        }
    }
    Ok(out)
}

/// Reads `n` position-morph elements.
fn parse_position_morphs(r: &mut Reader, g: &Globals, n: u32) -> (res: Result<
    Vec<PositionMorph>,
    DecodeError,
>)
    requires
        old(r).wf(),
    ensures
        final(r).wf(),
        final(r).bytes() == old(r).bytes(),
        res matches Ok(vs) ==> spec_count(
            position_morph_p(old(r).bytes(), *g),
            old(r).position(),
            n as nat,
        ) == Ok::<(Seq<PositionMorph>, int), DecodeError>((vs@, final(r).position())),
        res matches Err(e) ==> spec_count(
            position_morph_p(old(r).bytes(), *g),
            old(r).position(),
            n as nat,
        ) == Err::<(Seq<PositionMorph>, int), DecodeError>(e),
{
    let ghost s = r.bytes();
    let ghost i0 = r.position();
    let mut out: Vec<PositionMorph> = Vec::new();
    let mut k: u32 = 0;
    while k < n
        invariant
            r.wf(),
            r.bytes() == s,
            s == old(r).bytes(),
            i0 == old(r).position(),
            k <= n,
            spec_count(position_morph_p(s, *g), i0, k as nat) == Ok::<
                (Seq<PositionMorph>, int),
                DecodeError,
            >((out@, r.position())),
        decreases n - k,
    {
        let ghost j = r.position();
        match PositionMorph::parse(r, g) {
            Ok(v) => {
                proof {
                    assert(position_morph_p(s, *g)(j) == Ok::<(PositionMorph, int), DecodeError>(
                        (v, r.position()),
                    ));
                    lemma_count_step(
                        position_morph_p(s, *g),
                        i0,
                        k as nat,
                        out@,
                        j,
                        v,
                        r.position(),
                    );
                }
                out.push(v);
                k = k + 1;
            },
            Err(e) => {
                proof {
                    assert(position_morph_p(s, *g)(j) == Err::<(PositionMorph, int), DecodeError>(
                        e,
                    ));
                    lemma_count_step_err(
                        position_morph_p(s, *g),
                        i0,
                        k as nat,
                        n as nat,
                        out@,
                        j,
                        e,
                    );
                }
                return Err(e);
            },
        }
    }
    Ok(out)
}

/// Reads `n` bone-morph elements.
fn parse_bone_morphs(r: &mut Reader, g: &Globals, n: u32) -> (res: Result<
    Vec<BoneMorph>,
    DecodeError,
>)
    requires
        old(r).wf(),
    ensures
        final(r).wf(),
        final(r).bytes() == old(r).bytes(),
        res matches Ok(vs) ==> spec_count(
            bone_morph_p(old(r).bytes(), *g),
            old(r).position(),
            n as nat,
        ) == Ok::<(Seq<BoneMorph>, int), DecodeError>((vs@, final(r).position())),
        res matches Err(e) ==> spec_count(
            bone_morph_p(old(r).bytes(), *g),
            old(r).position(),
            n as nat,
        ) == Err::<(Seq<BoneMorph>, int), DecodeError>(e),
{
    let ghost s = r.bytes();
    let ghost i0 = r.position();
    let mut out: Vec<BoneMorph> = Vec::new();
    let mut k: u32 = 0;
    while k < n
        invariant
            r.wf(),
            r.bytes() == s,
            s == old(r).bytes(),
            i0 == old(r).position(),
            k <= n,
            spec_count(bone_morph_p(s, *g), i0, k as nat) == Ok::<
                (Seq<BoneMorph>, int),
                DecodeError,
            >((out@, r.position())),
        decreases n - k,
    {
        let ghost j = r.position();
        match BoneMorph::parse(r, g) {
            Ok(v) => {
                proof {
                    assert(bone_morph_p(s, *g)(j) == Ok::<(BoneMorph, int), DecodeError>(
                        (v, r.position()),
                    ));
                    lemma_count_step(bone_morph_p(s, *g), i0, k as nat, out@, j, v, r.position());
                }
                out.push(v);
                k = k + 1;
            },
            Err(e) => {
                proof {
                    assert(bone_morph_p(s, *g)(j) == Err::<(BoneMorph, int), DecodeError>(e));
                    lemma_count_step_err(bone_morph_p(s, *g), i0, k as nat, n as nat, out@, j, e);
                }
                return Err(e);
            },
        }
    }
    Ok(out)
}

/// Reads `n` UV-morph elements.
fn parse_uv_morphs(r: &mut Reader, g: &Globals, n: u32) -> (res: Result<Vec<UVMorph>, DecodeError>)
    requires
        old(r).wf(),
    ensures
        final(r).wf(),
        final(r).bytes() == old(r).bytes(),
        res matches Ok(vs) ==> spec_count(
            uv_morph_p(old(r).bytes(), *g),
            old(r).position(),
            n as nat,
        ) == Ok::<(Seq<UVMorph>, int), DecodeError>((vs@, final(r).position())),
        res matches Err(e) ==> spec_count(
            uv_morph_p(old(r).bytes(), *g),
            old(r).position(),
            n as nat,
        ) == Err::<(Seq<UVMorph>, int), DecodeError>(e),
{
    let ghost s = r.bytes();
    let ghost i0 = r.position();
    let mut out: Vec<UVMorph> = Vec::new();
    let mut k: u32 = 0;
    while k < n
        invariant
            r.wf(),
            r.bytes() == s,
            s == old(r).bytes(),
            i0 == old(r).position(),
            k <= n,
            spec_count(uv_morph_p(s, *g), i0, k as nat) == Ok::<(Seq<UVMorph>, int), DecodeError>(
                (out@, r.position()),
            ),
        decreases n - k,
    {
        let ghost j = r.position();
        match UVMorph::parse(r, g) {
            Ok(v) => {
                proof {
                    assert(uv_morph_p(s, *g)(j) == Ok::<(UVMorph, int), DecodeError>(
                        (v, r.position()),
                    ));
                    lemma_count_step(uv_morph_p(s, *g), i0, k as nat, out@, j, v, r.position());
                }
                out.push(v);
                k = k + 1;
            },
            Err(e) => {
                proof {
                    assert(uv_morph_p(s, *g)(j) == Err::<(UVMorph, int), DecodeError>(e));
                    lemma_count_step_err(uv_morph_p(s, *g), i0, k as nat, n as nat, out@, j, e);
                }
                return Err(e);
            },
        }
    }
    Ok(out)
}

/// Reads `n` material-morph elements.
fn parse_material_morphs(r: &mut Reader, g: &Globals, n: u32) -> (res: Result<
    Vec<MaterialMorph>,
    DecodeError,
>)
    requires
        old(r).wf(),
    ensures
        final(r).wf(),
        final(r).bytes() == old(r).bytes(),
        res matches Ok(vs) ==> spec_count(
            material_morph_p(old(r).bytes(), *g),
            old(r).position(),
            n as nat,
        ) == Ok::<(Seq<MaterialMorph>, int), DecodeError>((vs@, final(r).position())),
        res matches Err(e) ==> spec_count(
            material_morph_p(old(r).bytes(), *g),
            old(r).position(),
            n as nat,
        ) == Err::<(Seq<MaterialMorph>, int), DecodeError>(e),
{
    let ghost s = r.bytes();
    let ghost i0 = r.position();
    let mut out: Vec<MaterialMorph> = Vec::new();
    let mut k: u32 = 0;
    while k < n
        invariant
            r.wf(),
            r.bytes() == s,
            s == old(r).bytes(),
            i0 == old(r).position(),
            k <= n,
            spec_count(material_morph_p(s, *g), i0, k as nat) == Ok::<
                (Seq<MaterialMorph>, int),
                DecodeError,
            >((out@, r.position())),
        decreases n - k,
    {
        let ghost j = r.position();
        match MaterialMorph::parse(r, g) {
            Ok(v) => {
                proof {
                    assert(material_morph_p(s, *g)(j) == Ok::<(MaterialMorph, int), DecodeError>(
                        (v, r.position()),
                    ));
                    lemma_count_step(
                        material_morph_p(s, *g),
                        i0,
                        k as nat,
                        out@,
                        j,
                        v,
                        r.position(),
                    );
                }
                out.push(v);
                k = k + 1;
            },
            Err(e) => {
                proof {
                    assert(material_morph_p(s, *g)(j) == Err::<(MaterialMorph, int), DecodeError>(
                        e,
                    ));
                    lemma_count_step_err(
                        material_morph_p(s, *g),
                        i0,
                        k as nat,
                        n as nat,
                        out@,
                        j,
                        e,
                    );
                }
                return Err(e);
            },
        }
    }
    Ok(out)
}

/// Reads `n` flip-morph elements.
fn parse_flip_morphs(r: &mut Reader, g: &Globals, n: u32) -> (res: Result<
    Vec<FlipMorph>,
    DecodeError,
>)
    requires
        old(r).wf(),
    ensures
        final(r).wf(),
        final(r).bytes() == old(r).bytes(),
        res matches Ok(vs) ==> spec_count(
            flip_morph_p(old(r).bytes(), *g),
            old(r).position(),
            n as nat,
        ) == Ok::<(Seq<FlipMorph>, int), DecodeError>((vs@, final(r).position())),
        res matches Err(e) ==> spec_count(
            flip_morph_p(old(r).bytes(), *g),
            old(r).position(),
            n as nat,
        ) == Err::<(Seq<FlipMorph>, int), DecodeError>(e),
{
    let ghost s = r.bytes();
    let ghost i0 = r.position();
    let mut out: Vec<FlipMorph> = Vec::new();
    let mut k: u32 = 0;
    while k < n
        invariant
            r.wf(),
            r.bytes() == s,
            s == old(r).bytes(),
            i0 == old(r).position(),
            k <= n,
            spec_count(flip_morph_p(s, *g), i0, k as nat) == Ok::<
                (Seq<FlipMorph>, int),
                DecodeError,
            >((out@, r.position())),
        decreases n - k,
    {
        let ghost j = r.position();
        match FlipMorph::parse(r, g) {
            Ok(v) => {
                proof {
                    assert(flip_morph_p(s, *g)(j) == Ok::<(FlipMorph, int), DecodeError>(
                        (v, r.position()),
                    ));
                    lemma_count_step(flip_morph_p(s, *g), i0, k as nat, out@, j, v, r.position());
                }
                out.push(v);
                k = k + 1;
            },
            Err(e) => {
                proof {
                    assert(flip_morph_p(s, *g)(j) == Err::<(FlipMorph, int), DecodeError>(e));
                    lemma_count_step_err(flip_morph_p(s, *g), i0, k as nat, n as nat, out@, j, e);
                }
                return Err(e);
            },
        }
    }
    Ok(out)
}

/// Reads `n` impulse-morph elements.
fn parse_impulse_morphs(r: &mut Reader, g: &Globals, n: u32) -> (res: Result<
    Vec<ImpulseMorph>,
    DecodeError,
>)
    requires
        old(r).wf(),
    ensures
        final(r).wf(),
        final(r).bytes() == old(r).bytes(),
        res matches Ok(vs) ==> spec_count(
            impulse_morph_p(old(r).bytes(), *g),
            old(r).position(),
            n as nat,
        ) == Ok::<(Seq<ImpulseMorph>, int), DecodeError>((vs@, final(r).position())),
        res matches Err(e) ==> spec_count(
            impulse_morph_p(old(r).bytes(), *g),
            old(r).position(),
            n as nat,
        ) == Err::<(Seq<ImpulseMorph>, int), DecodeError>(e),
{
    let ghost s = r.bytes();
    let ghost i0 = r.position();
    let mut out: Vec<ImpulseMorph> = Vec::new();
    let mut k: u32 = 0;
    while k < n
        invariant
            r.wf(),
            r.bytes() == s,
            s == old(r).bytes(),
            i0 == old(r).position(),
            k <= n,
            spec_count(impulse_morph_p(s, *g), i0, k as nat) == Ok::<
                (Seq<ImpulseMorph>, int),
                DecodeError,
            >((out@, r.position())),
        decreases n - k,
    {
        let ghost j = r.position();
        match ImpulseMorph::parse(r, g) {
            Ok(v) => {
                proof {
                    assert(impulse_morph_p(s, *g)(j) == Ok::<(ImpulseMorph, int), DecodeError>(
                        (v, r.position()),
                    ));
                    lemma_count_step(
                        impulse_morph_p(s, *g),
                        i0,
                        k as nat,
                        out@,
                        j,
                        v,
                        r.position(),
                    );
                }
                out.push(v);
                k = k + 1;
            },
            Err(e) => {
                proof {
                    assert(impulse_morph_p(s, *g)(j) == Err::<(ImpulseMorph, int), DecodeError>(
                        e,
                    ));
                    lemma_count_step_err(
                        impulse_morph_p(s, *g),
                        i0,
                        k as nat,
                        n as nat,
                        out@,
                        j,
                        e,
                    );
                }
                return Err(e);
            },
        }
    }
    Ok(out)
}

} // verus!

verus! {

/// One morph: localized name, the UI control-panel byte, the MorphType, and
/// exactly one of the seven payload lists populated according to that type;
/// the other six are always empty.
#[derive(Debug, Clone, PartialEq, Eq)]
pub struct Morph {
    pub name: Name,
    pub panel: u8,
    pub morph_type: MorphType,
    pub position: Vec<PositionMorph>,
    pub uv: Vec<UVMorph>,
    pub bone: Vec<BoneMorph>,
    pub material: Vec<MaterialMorph>,
    pub group: Vec<GroupMorph>,
    pub flip: Vec<FlipMorph>,
    pub impulse: Vec<ImpulseMorph>,
}

/// The mathematical value of a [`Morph`].
pub struct MorphM {
    pub name: NameM,
    pub panel: u8,
    pub morph_type: MorphType,
    pub position: Seq<PositionMorph>,
    pub uv: Seq<UVMorph>,
    pub bone: Seq<BoneMorph>,
    pub material: Seq<MaterialMorph>,
    pub group: Seq<GroupMorph>,
    pub flip: Seq<FlipMorph>,
    pub impulse: Seq<ImpulseMorph>,
}

impl View for Morph {
    type V = MorphM;

    open spec fn view(&self) -> MorphM {
        MorphM {
            name: self.name@,
            panel: self.panel,
            morph_type: self.morph_type,
            position: self.position@,
            uv: self.uv@,
            bone: self.bone@,
            material: self.material@,
            group: self.group@,
            flip: self.flip@,
            impulse: self.impulse@,
        }
    }
}

/// A MorphM with the given header fields, every payload list empty.
pub open spec fn empty_morph(name: NameM, panel: u8, morph_type: MorphType) -> MorphM {
    MorphM {
        name,
        panel,
        morph_type,
        position: Seq::empty(),
        uv: Seq::empty(),
        bone: Seq::empty(),
        material: Seq::empty(),
        group: Seq::empty(),
        flip: Seq::empty(),
        impulse: Seq::empty(),
    }
}

/// One morph read at `i` under the Globals configuration: the shared header
/// fields, one element count, then exactly one payload list of that count,
/// its shape dispatched on the MorphType.
pub open spec fn spec_morph(s: Seq<u8>, i: int, g: Globals) -> Result<(MorphM, int), DecodeError> {
    match spec_name(s, i, g.encoding) {
        Ok((name, i1)) => match spec_u8(s, i1) {
            Ok((panel, i2)) => match spec_u8(s, i2) {
                Ok((t, i3)) => match spec_morph_type(t) {
                    Some(mt) => match spec_u32(s, i3) {
                        Ok((n, i4)) => match mt {
                            MorphType::Group => match spec_count(
                                group_morph_p(s, g),
                                i4,
                                n as nat,
                            ) {
                                Ok((group, j)) => Ok(
                                    (MorphM { group, ..empty_morph(name, panel, mt) }, j),
                                ),
                                Err(e) => Err(e),
                            },
                            MorphType::Position => match spec_count(
                                position_morph_p(s, g),
                                i4,
                                n as nat,
                            ) {
                                Ok((position, j)) => Ok(
                                    (MorphM { position, ..empty_morph(name, panel, mt) }, j),
                                ),
                                Err(e) => Err(e),
                            },
                            MorphType::Bone => match spec_count(bone_morph_p(s, g), i4, n as nat) {
                                Ok((bone, j)) => Ok(
                                    (MorphM { bone, ..empty_morph(name, panel, mt) }, j),
                                ),
                                Err(e) => Err(e),
                            },
                            MorphType::Material => match spec_count(
                                material_morph_p(s, g),
                                i4,
                                n as nat,
                            ) {
                                Ok((material, j)) => Ok(
                                    (MorphM { material, ..empty_morph(name, panel, mt) }, j),
                                ),
                                Err(e) => Err(e),
                            },
                            MorphType::Flip => match spec_count(flip_morph_p(s, g), i4, n as nat) {
                                Ok((flip, j)) => Ok(
                                    (MorphM { flip, ..empty_morph(name, panel, mt) }, j),
                                ),
                                Err(e) => Err(e),
                            },
                            MorphType::Impulse => match spec_count(
                                impulse_morph_p(s, g),
                                i4,
                                n as nat,
                            ) {
                                Ok((impulse, j)) => Ok(
                                    (MorphM { impulse, ..empty_morph(name, panel, mt) }, j),
                                ),
                                Err(e) => Err(e),
                            },
                            _ => match spec_count(uv_morph_p(s, g), i4, n as nat) {
                                Ok((uv, j)) => Ok(
                                    (MorphM { uv, ..empty_morph(name, panel, mt) }, j),
                                ),
                                Err(e) => Err(e),
                            },
                        },
                        Err(e) => Err(e),
                    },
                    None => Err(DecodeError::InvalidEnumValue),
                },
                Err(e) => Err(e),
            },
            Err(e) => Err(e),
        },
        Err(e) => Err(e),
    }
}

impl Morph {
    /// Reads one morph: name pair, panel byte, type byte (validated against
    /// the closed 11-value set), one element count, then the single payload
    /// list that the type selects.
    #[verifier::rlimit(60)]
    #[verifier::spinoff_prover]
    pub fn parse(r: &mut Reader, g: &Globals) -> (res: Result<Morph, DecodeError>)
        requires
            old(r).wf(),
            g.encoding == 0 || g.encoding == 1,
        ensures
            final(r).wf(),
            final(r).bytes() == old(r).bytes(),
            res matches Ok(v) ==> spec_morph(old(r).bytes(), old(r).position(), *g) == Ok::<
                (MorphM, int),
                DecodeError,
            >((v@, final(r).position())),
            res matches Err(e) ==> spec_morph(old(r).bytes(), old(r).position(), *g) == Err::<
                (MorphM, int),
                DecodeError,
            >(e),
    {
        let name = match Name::parse(r, g.encoding) {
            Ok(v) => v,
            Err(e) => {
                return Err(e);
            },
        };
        let panel = match r.read_u8() {
            Ok(v) => v,
            Err(e) => {
                return Err(e);
            },
        };
        let t = match r.read_u8() {
            Ok(v) => v,
            Err(e) => {
                return Err(e);
            },
        };
        let morph_type = match MorphType::from_u8(t) {
            Some(v) => v,
            None => {
                return Err(DecodeError::InvalidEnumValue);
            },
        };
        let n = match r.read_u32() {
            Ok(v) => v,
            Err(e) => {
                return Err(e);
            },
        };
        let mut position: Vec<PositionMorph> = Vec::new();
        let mut uv: Vec<UVMorph> = Vec::new();
        let mut bone: Vec<BoneMorph> = Vec::new();
        let mut material: Vec<MaterialMorph> = Vec::new();
        let mut group: Vec<GroupMorph> = Vec::new();
        let mut flip: Vec<FlipMorph> = Vec::new();
        let mut impulse: Vec<ImpulseMorph> = Vec::new();
        match morph_type {
            MorphType::Group => {
                group = match parse_group_morphs(r, g, n) {
                    Ok(v) => v,
                    Err(e) => {
                        return Err(e);
                    },
                };
            },
            MorphType::Position => {
                position = match parse_position_morphs(r, g, n) {
                    Ok(v) => v,
                    Err(e) => {
                        return Err(e);
                    },
                };
            },
            MorphType::Bone => {
                bone = match parse_bone_morphs(r, g, n) {
                    Ok(v) => v,
                    Err(e) => {
                        return Err(e);
                    },
                };
            },
            MorphType::Material => {
                material = match parse_material_morphs(r, g, n) {
                    Ok(v) => v,
                    Err(e) => {
                        return Err(e);
                    },
                };
            },
            MorphType::Flip => {
                flip = match parse_flip_morphs(r, g, n) {
                    Ok(v) => v,
                    Err(e) => {
                        return Err(e);
                    },
                };
            },
            MorphType::Impulse => {
                impulse = match parse_impulse_morphs(r, g, n) {
                    Ok(v) => v,
                    Err(e) => {
                        return Err(e);
                    },
                };
            },
            _ => {
                uv = match parse_uv_morphs(r, g, n) {
                    Ok(v) => v,
                    Err(e) => {
                        return Err(e);
                    },
                };
            },
        }
        Ok(Morph { name, panel, morph_type, position, uv, bone, material, group, flip, impulse })
    }
}

/// The length of the payload list that `m.morph_type` selects.
pub open spec fn active_payload_len(m: MorphM) -> nat {
    match m.morph_type {
        MorphType::Group => m.group.len(),
        MorphType::Position => m.position.len(),
        MorphType::Bone => m.bone.len(),
        MorphType::Material => m.material.len(),
        MorphType::Flip => m.flip.len(),
        MorphType::Impulse => m.impulse.len(),
        _ => m.uv.len(),
    }
}

/// The six payload lists that `m.morph_type` does not select are empty.
pub open spec fn inactive_payloads_empty(m: MorphM) -> bool {
    match m.morph_type {
        MorphType::Group => m.position.len() == 0 && m.uv.len() == 0 && m.bone.len() == 0
            && m.material.len() == 0 && m.flip.len() == 0 && m.impulse.len() == 0,
        MorphType::Position => m.uv.len() == 0 && m.bone.len() == 0 && m.material.len() == 0
            && m.group.len() == 0 && m.flip.len() == 0 && m.impulse.len() == 0,
        MorphType::Bone => m.position.len() == 0 && m.uv.len() == 0 && m.material.len() == 0
            && m.group.len() == 0 && m.flip.len() == 0 && m.impulse.len() == 0,
        MorphType::Material => m.position.len() == 0 && m.uv.len() == 0 && m.bone.len() == 0
            && m.group.len() == 0 && m.flip.len() == 0 && m.impulse.len() == 0,
        MorphType::Flip => m.position.len() == 0 && m.uv.len() == 0 && m.bone.len() == 0
            && m.material.len() == 0 && m.group.len() == 0 && m.impulse.len() == 0,
        MorphType::Impulse => m.position.len() == 0 && m.uv.len() == 0 && m.bone.len() == 0
            && m.material.len() == 0 && m.group.len() == 0 && m.flip.len() == 0,
        _ => m.position.len() == 0 && m.bone.len() == 0 && m.material.len() == 0 && m.group.len()
            == 0 && m.flip.len() == 0 && m.impulse.len() == 0,
    }
}

/// How many of the seven payload lists are non-empty.
pub open spec fn nonempty_payload_count(m: MorphM) -> int {
    (if m.position.len() > 0 {
        1int
    } else {
        0int
    }) + (if m.uv.len() > 0 {
        1int
    } else {
        0int
    }) + (if m.bone.len() > 0 {
        1int
    } else {
        0int
    }) + (if m.material.len() > 0 {
        1int
    } else {
        0int
    }) + (if m.group.len() > 0 {
        1int
    } else {
        0int
    }) + (if m.flip.len() > 0 {
        1int
    } else {
        0int
    }) + (if m.impulse.len() > 0 {
        1int
    } else {
        0int
    })
}

/// Law: for every MorphType, decoding a morph populates only the payload
/// list that the type selects; the other six lists are empty, so exactly one
/// list is non-empty whenever any element was declared.  (A declared element
/// count of zero leaves every list empty.)
pub proof fn lemma_morph_single_payload(s: Seq<u8>, i: int, g: Globals)
    ensures
        spec_morph(s, i, g) matches Ok(p) ==> inactive_payloads_empty(p.0),
        spec_morph(s, i, g) matches Ok(p) ==> nonempty_payload_count(p.0) == (
        if active_payload_len(p.0) > 0 {
            1int
        } else {
            0int
        }),
{
}

} // verus!
