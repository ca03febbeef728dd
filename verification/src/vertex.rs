use crate::error::DecodeError;
use crate::globals::{valid_width, Globals};
use crate::pmxindex::{le_integer, spec_le_integer};
use crate::reader::{spec_u32, spec_u8, Reader};
use crate::repeat::{lemma_count_step, lemma_count_step_err, spec_count};
use crate::vecs::{spec_vec2, spec_vec3, spec_vec4, Vec2, Vec3, Vec4};
use vstd::prelude::*;

verus! {

/// The per-vertex skin-weighting record: a tagged union selected by a
/// 1-byte discriminant (0-4).  Bone references are logical 32-bit indices
/// read at the Globals bone width by the signed rule; weights are raw f32
/// bit patterns.  BDEF2's stored weight belongs to the first bone, the
/// second weight being implicitly one minus it.
#[derive(Clone, Copy, Debug, PartialEq, Eq, Structural)]
pub enum BoneWeight {
    BDEF1 { index: i32 },
    BDEF2 { index0: i32, index1: i32, weight: u32 },
    BDEF4 {
        index0: i32,
        index1: i32,
        index2: i32,
        index3: i32,
        weight0: u32,
        weight1: u32,
        weight2: u32,
        weight3: u32,
    },
    SDEF { index0: i32, index1: i32, weight: u32, c: Vec3, r0: Vec3, r1: Vec3 },
    QDEF {
        index0: i32,
        index1: i32,
        index2: i32,
        index3: i32,
        weight0: u32,
        weight1: u32,
        weight2: u32,
        weight3: u32,
    },
}

/// Two consecutive signed indices of width `w` read at `i`.
pub open spec fn spec_two_indices(s: Seq<u8>, i: int, w: u8) -> Result<
    ((i32, i32), int),
    DecodeError,
> {
    match spec_le_integer(s, i, w) {
        Ok((a, i1)) => match spec_le_integer(s, i1, w) {
            Ok((b, i2)) => Ok(((a, b), i2)),
            Err(e) => Err(e),
        },
        Err(e) => Err(e),
    }
}

/// Four consecutive signed indices of width `w` read at `i`.
pub open spec fn spec_four_indices(s: Seq<u8>, i: int, w: u8) -> Result<
    ((i32, i32, i32, i32), int),
    DecodeError,
> {
    match spec_two_indices(s, i, w) {
        Ok(((a, b), i1)) => match spec_two_indices(s, i1, w) {
            Ok(((c, d), i2)) => Ok(((a, b, c, d), i2)),
            Err(e) => Err(e),
        },
        Err(e) => Err(e),
    }
}

/// Four consecutive u32 values read at `i`.
pub open spec fn spec_four_u32(s: Seq<u8>, i: int) -> Result<
    ((u32, u32, u32, u32), int),
    DecodeError,
> {
    match spec_u32(s, i) {
        Ok((a, i1)) => match spec_u32(s, i1) {
            Ok((b, i2)) => match spec_u32(s, i2) {
                Ok((c, i3)) => match spec_u32(s, i3) {
                    Ok((d, i4)) => Ok(((a, b, c, d), i4)),
                    Err(e) => Err(e),
                },
                Err(e) => Err(e),
            },
            Err(e) => Err(e),
        },
        Err(e) => Err(e),
    }
}

/// A BoneWeight read at `i`: the discriminant byte, then exactly the field
/// set of that variant.  A discriminant outside 0-4 is a fatal error.
pub open spec fn spec_bone_weight(s: Seq<u8>, i: int, w: u8) -> Result<
    (BoneWeight, int),
    DecodeError,
> {
    match spec_u8(s, i) {
        Ok((ty, i1)) => {
            if ty == 0 {
                match spec_le_integer(s, i1, w) {
                    Ok((index, j)) => Ok((BoneWeight::BDEF1 { index }, j)),
                    Err(e) => Err(e),
                }
            } else if ty == 1 {
                match spec_two_indices(s, i1, w) {
                    Ok(((index0, index1), i2)) => match spec_u32(s, i2) {
                        Ok((weight, j)) => Ok((BoneWeight::BDEF2 { index0, index1, weight }, j)),
                        Err(e) => Err(e),
                    },
                    Err(e) => Err(e),
                }
            } else if ty == 2 {
                match spec_four_indices(s, i1, w) {
                    Ok(((index0, index1, index2, index3), i2)) => match spec_four_u32(s, i2) {
                        Ok(((weight0, weight1, weight2, weight3), j)) => Ok(
                            (
                                BoneWeight::BDEF4 {
                                    index0,
                                    index1,
                                    index2,
                                    index3,
                                    weight0,
                                    weight1,
                                    weight2,
                                    weight3,
                                },
                                j,
                            ),
                        ),
                        Err(e) => Err(e),
                    },
                    Err(e) => Err(e),
                }
            } else if ty == 3 {
                match spec_two_indices(s, i1, w) {
                    Ok(((index0, index1), i2)) => match spec_u32(s, i2) {
                        Ok((weight, i3)) => match spec_vec3(s, i3) {
                            Ok((c, i4)) => match spec_vec3(s, i4) {
                                Ok((r0, i5)) => match spec_vec3(s, i5) {
                                    Ok((r1, j)) => Ok(
                                        (BoneWeight::SDEF { index0, index1, weight, c, r0, r1 }, j),
                                    ),
                                    Err(e) => Err(e),
                                },
                                Err(e) => Err(e),
                            },
                            Err(e) => Err(e),
                        },
                        Err(e) => Err(e),
                    },
                    Err(e) => Err(e),
                }
            } else if ty == 4 {
                match spec_four_indices(s, i1, w) {
                    Ok(((index0, index1, index2, index3), i2)) => match spec_four_u32(s, i2) {
                        Ok(((weight0, weight1, weight2, weight3), j)) => Ok(
                            (
                                BoneWeight::QDEF {
                                    index0,
                                    index1,
                                    index2,
                                    index3,
                                    weight0,
                                    weight1,
                                    weight2,
                                    weight3,
                                },
                                j,
                            ),
                        ),
                        Err(e) => Err(e),
                    },
                    Err(e) => Err(e),
                }
            } else {
                Err(DecodeError::InvalidEnumValue)
            }
        },
        Err(e) => Err(e),
    }
}

/// Reads two signed indices of width `w`.
fn parse_two_indices(r: &mut Reader, w: u8) -> (res: Result<(i32, i32), DecodeError>)
    requires
        old(r).wf(),
    ensures
        final(r).wf(),
        final(r).bytes() == old(r).bytes(),
        res matches Ok(p) ==> spec_two_indices(old(r).bytes(), old(r).position(), w) == Ok::<
            ((i32, i32), int),
            DecodeError,
        >((p, final(r).position())),
        res matches Err(e) ==> spec_two_indices(old(r).bytes(), old(r).position(), w) == Err::<
            ((i32, i32), int),
            DecodeError,
        >(e),
{
    let a = match le_integer(r, w) {
        Ok(v) => v,
        Err(e) => {
            return Err(e);
        },
    };
    let b = match le_integer(r, w) {
        Ok(v) => v,
        Err(e) => {
            return Err(e);
        },
    };
    Ok((a, b))
}

/// Reads four signed indices of width `w`.
fn parse_four_indices(r: &mut Reader, w: u8) -> (res: Result<(i32, i32, i32, i32), DecodeError>)
    requires
        old(r).wf(),
    ensures
        final(r).wf(),
        final(r).bytes() == old(r).bytes(),
        res matches Ok(p) ==> spec_four_indices(old(r).bytes(), old(r).position(), w) == Ok::<
            ((i32, i32, i32, i32), int),
            DecodeError,
        >((p, final(r).position())),
        res matches Err(e) ==> spec_four_indices(old(r).bytes(), old(r).position(), w) == Err::<
            ((i32, i32, i32, i32), int),
            DecodeError,
        >(e),
{
    let ab = match parse_two_indices(r, w) {
        Ok(v) => v,
        Err(e) => {
            return Err(e);
        },
    };
    let cd = match parse_two_indices(r, w) {
        Ok(v) => v,
        Err(e) => {
            return Err(e);
        },
    };
    Ok((ab.0, ab.1, cd.0, cd.1))
}

/// Reads four u32 values.
fn parse_four_u32(r: &mut Reader) -> (res: Result<(u32, u32, u32, u32), DecodeError>)
    requires
        old(r).wf(),
    ensures
        final(r).wf(),
        final(r).bytes() == old(r).bytes(),
        res matches Ok(p) ==> spec_four_u32(old(r).bytes(), old(r).position()) == Ok::<
            ((u32, u32, u32, u32), int),
            DecodeError,
        >((p, final(r).position())),
        res matches Err(e) ==> spec_four_u32(old(r).bytes(), old(r).position()) == Err::<
            ((u32, u32, u32, u32), int),
            DecodeError,
        >(e),
{
    let a = match r.read_u32() {
        Ok(v) => v,
        Err(e) => {
            return Err(e);
        },
    };
    let b = match r.read_u32() {
        Ok(v) => v,
        Err(e) => {
            return Err(e);
        },
    };
    let c = match r.read_u32() {
        Ok(v) => v,
        Err(e) => {
            return Err(e);
        },
    };
    let d = match r.read_u32() {
        Ok(v) => v,
        Err(e) => {
            return Err(e);
        },
    };
    Ok((a, b, c, d))
}

impl BoneWeight {
    /// Reads one BoneWeight at the Globals bone-index width `w`: the
    /// discriminant byte, then the fields of that variant and nothing more.
    pub fn parse(r: &mut Reader, w: u8) -> (res: Result<BoneWeight, DecodeError>)
        requires
            old(r).wf(),
        ensures
            final(r).wf(),
            final(r).bytes() == old(r).bytes(),
            res matches Ok(v) ==> spec_bone_weight(old(r).bytes(), old(r).position(), w) == Ok::<
                (BoneWeight, int),
                DecodeError,
            >((v, final(r).position())),
            res matches Err(e) ==> spec_bone_weight(old(r).bytes(), old(r).position(), w) == Err::<
                (BoneWeight, int),
                DecodeError,
            >(e),
    {
        let ty = match r.read_u8() {
            Ok(v) => v,
            Err(e) => {
                return Err(e);
            },
        };
        if ty == 0 {
            let index = match le_integer(r, w) {
                Ok(v) => v,
                Err(e) => {
                    return Err(e);
                },
            };
            Ok(BoneWeight::BDEF1 { index })
        } else if ty == 1 {
            let idx = match parse_two_indices(r, w) {
                Ok(v) => v,
                Err(e) => {
                    return Err(e);
                },
            };
            let weight = match r.read_u32() {
                Ok(v) => v,
                Err(e) => {
                    return Err(e);
                },
            };
            Ok(BoneWeight::BDEF2 { index0: idx.0, index1: idx.1, weight })
        } else if ty == 2 {
            let idx = match parse_four_indices(r, w) {
                Ok(v) => v,
                Err(e) => {
                    return Err(e);
                },
            };
            let wt = match parse_four_u32(r) {
                Ok(v) => v,
                Err(e) => {
                    return Err(e);
                },
            };
            Ok(
                BoneWeight::BDEF4 {
                    index0: idx.0,
                    index1: idx.1,
                    index2: idx.2,
                    index3: idx.3,
                    weight0: wt.0,
                    weight1: wt.1,
                    weight2: wt.2,
                    weight3: wt.3,
                },
            )
        } else if ty == 3 {
            let idx = match parse_two_indices(r, w) {
                Ok(v) => v,
                Err(e) => {
                    return Err(e);
                },
            };
            let weight = match r.read_u32() {
                Ok(v) => v,
                Err(e) => {
                    return Err(e);
                },
            };
            let c = match Vec3::parse(r) {
                Ok(v) => v,
                Err(e) => {
                    return Err(e);
                },
            };
            let r0 = match Vec3::parse(r) {
                Ok(v) => v,
                Err(e) => {
                    return Err(e);
                },
            };
            let r1 = match Vec3::parse(r) {
                Ok(v) => v,
                Err(e) => {
                    return Err(e);
                },
            };
            Ok(BoneWeight::SDEF { index0: idx.0, index1: idx.1, weight, c, r0, r1 })
        } else if ty == 4 {
            let idx = match parse_four_indices(r, w) {
                Ok(v) => v,
                Err(e) => {
                    return Err(e);
                },
            };
            let wt = match parse_four_u32(r) {
                Ok(v) => v,
                Err(e) => {
                    return Err(e);
                },
            };
            Ok(
                BoneWeight::QDEF {
                    index0: idx.0,
                    index1: idx.1,
                    index2: idx.2,
                    index3: idx.3,
                    weight0: wt.0,
                    weight1: wt.1,
                    weight2: wt.2,
                    weight3: wt.3,
                },
            )
        } else {
            Err(DecodeError::InvalidEnumValue)
        }
    }
}

/// How many bytes past the discriminant each variant stores at bone-index
/// width `w`: its documented field set and nothing more.
pub open spec fn bone_weight_payload_size(bw: BoneWeight, w: u8) -> int {
    match bw {
        BoneWeight::BDEF1 { .. } => w as int,
        BoneWeight::BDEF2 { .. } => 2 * (w as int) + 4,
        BoneWeight::BDEF4 { .. } => 4 * (w as int) + 16,
        BoneWeight::SDEF { .. } => 2 * (w as int) + 40,
        BoneWeight::QDEF { .. } => 4 * (w as int) + 16,
    }
}

/// Law: for every discriminant, decoding a BoneWeight consumes exactly the
/// documented field set and no more: the cursor lands one tag byte plus the
/// variant's payload size past where it started.
pub proof fn lemma_bone_weight_consumes(s: Seq<u8>, i: int, w: u8)
    requires
        valid_width(w),
    ensures
        spec_bone_weight(s, i, w) matches Ok(p) ==> p.1 == i + 1 + bone_weight_payload_size(
            p.0,
            w,
        ),
{
}

/// One vertex: position, normal, UV, the Globals-declared count of extra
/// vec4 attributes, the BoneWeight, and the edge scale.
#[derive(Debug, Clone, PartialEq, Eq)]
pub struct Vertex {
    pub position: Vec3,
    pub normal: Vec3,
    pub uv: Vec2,
    pub additional: Vec<Vec4>,
    pub bone_weight: BoneWeight,
    pub edge_scale: u32,
}

/// The mathematical value of a [`Vertex`].
pub struct VertexM {
    pub position: Vec3,
    pub normal: Vec3,
    pub uv: Vec2,
    pub additional: Seq<Vec4>,
    pub bone_weight: BoneWeight,
    pub edge_scale: u32,
}

impl View for Vertex {
    type V = VertexM;

    open spec fn view(&self) -> VertexM {
        VertexM {
            position: self.position,
            normal: self.normal,
            uv: self.uv,
            additional: self.additional@,
            bone_weight: self.bone_weight,
            edge_scale: self.edge_scale,
        }
    }
}

/// The element parser of the extra-attribute list.
pub open spec fn vec4_p(s: Seq<u8>) -> spec_fn(int) -> Result<(Vec4, int), DecodeError> {
    |i: int| spec_vec4(s, i)
}

/// `n` consecutive vec4 records read at `i`.
pub open spec fn spec_vec4s(s: Seq<u8>, i: int, n: nat) -> Result<(Seq<Vec4>, int), DecodeError> {
    spec_count(vec4_p(s), i, n)
}

/// Reads `n` consecutive vec4 records.
pub fn parse_vec4s(r: &mut Reader, n: u32) -> (res: Result<Vec<Vec4>, DecodeError>)
    requires
        old(r).wf(),
    ensures
        final(r).wf(),
        final(r).bytes() == old(r).bytes(),
        res matches Ok(vs) ==> spec_vec4s(old(r).bytes(), old(r).position(), n as nat) == Ok::<
            (Seq<Vec4>, int),
            DecodeError,
        >((vs@, final(r).position())),
        res matches Err(e) ==> spec_vec4s(old(r).bytes(), old(r).position(), n as nat) == Err::<
            (Seq<Vec4>, int),
            DecodeError,
        >(e),
{
    let ghost s = r.bytes();
    let ghost i0 = r.position();
    let mut out: Vec<Vec4> = Vec::new();
    let mut k: u32 = 0;
    while k < n
        invariant
            r.wf(),
            r.bytes() == s,
            s == old(r).bytes(),
            i0 == old(r).position(),
            k <= n,
            spec_count(vec4_p(s), i0, k as nat) == Ok::<(Seq<Vec4>, int), DecodeError>(
                (out@, r.position()),
            ),
        decreases n - k,
    {
        let ghost j = r.position();
        match Vec4::parse(r) {
            Ok(v) => {
                proof {
                    assert(vec4_p(s)(j) == Ok::<(Vec4, int), DecodeError>((v, r.position())));
                    lemma_count_step(vec4_p(s), i0, k as nat, out@, j, v, r.position());
                }
                out.push(v);
                k = k + 1;
            },
            Err(e) => {
                proof {
                    assert(vec4_p(s)(j) == Err::<(Vec4, int), DecodeError>(e));
                    lemma_count_step_err(vec4_p(s), i0, k as nat, n as nat, out@, j, e);
                }
                return Err(e);
            },
        }
    }
    Ok(out)
}

/// One vertex read at `i` under the Globals configuration.
pub open spec fn spec_vertex(s: Seq<u8>, i: int, g: Globals) -> Result<(VertexM, int), DecodeError> {
    match spec_vec3(s, i) {
        Ok((position, i1)) => match spec_vec3(s, i1) {
            Ok((normal, i2)) => match spec_vec2(s, i2) {
                Ok((uv, i3)) => match spec_vec4s(s, i3, g.additional as nat) {
                    Ok((additional, i4)) => match spec_bone_weight(s, i4, g.bone_index_size) {
                        Ok((bone_weight, i5)) => match spec_u32(s, i5) {
                            Ok((edge_scale, j)) => Ok(
                                (
                                    VertexM {
                                        position,
                                        normal,
                                        uv,
                                        additional,
                                        bone_weight,
                                        edge_scale,
                                    },
                                    j,
                                ),
                            ),
                            Err(e) => Err(e),
                        },
                        Err(e) => Err(e),
                    },
                    Err(e) => Err(e),
                },
                Err(e) => Err(e),
            },
            Err(e) => Err(e),
        },
        Err(e) => Err(e),
    }
}

impl Vertex {
    /// Reads one vertex: the fixed fields, then the Globals-declared count
    /// of extra attributes, then the BoneWeight, then the edge scale.
    pub fn parse(r: &mut Reader, g: &Globals) -> (res: Result<Vertex, DecodeError>)
        requires
            old(r).wf(),
        ensures
            final(r).wf(),
            final(r).bytes() == old(r).bytes(),
            res matches Ok(v) ==> spec_vertex(old(r).bytes(), old(r).position(), *g) == Ok::<
                (VertexM, int),
                DecodeError,
            >((v@, final(r).position())),
            res matches Err(e) ==> spec_vertex(old(r).bytes(), old(r).position(), *g) == Err::<
                (VertexM, int),
                DecodeError,
            >(e),
    {
        let position = match Vec3::parse(r) {
            Ok(v) => v,
            Err(e) => {
                return Err(e);
            },
        };
        let normal = match Vec3::parse(r) {
            Ok(v) => v,
            Err(e) => {
                return Err(e);
            },
        };
        let uv = match Vec2::parse(r) {
            Ok(v) => v,
            Err(e) => {
                return Err(e);
            },
        };
        let additional = match parse_vec4s(r, g.additional as u32) {
            Ok(v) => v,
            Err(e) => {
                return Err(e);
            },
        };
        let bone_weight = match BoneWeight::parse(r, g.bone_index_size) {
            Ok(v) => v,
            Err(e) => {
                return Err(e);
            },
        };
        let edge_scale = match r.read_u32() {
            Ok(v) => v,
            Err(e) => {
                return Err(e);
            },
        };
        Ok(Vertex { position, normal, uv, additional, bone_weight, edge_scale })
    }
}

} // verus!
