use crate::error::DecodeError;
use crate::globals::Globals;
use crate::pmxindex::{spec_index, Index};
use crate::pmxmaterial::ModeSet;
use crate::pmxstring::{spec_pmx_string, PmxString};
use crate::reader::{spec_i32, spec_u16, spec_u32, spec_u8, Reader};
use crate::repeat::{lemma_count_step, lemma_count_step_err, spec_count};
use crate::vecs::{spec_vec3, Vec3};
use vstd::prelude::*;

verus! {

/// The thirteen bone flags.  They are the only source of truth for which
/// optional blocks follow in the byte stream; undefined bits are kept but
/// gate nothing.
#[derive(Clone, Copy, Debug, PartialEq, Eq, Structural)]
pub enum BoneFlags {
    /// Clear: the bone stores a position offset; set: a linked bone index.
    TargetMode,
    CanRotate,
    CanTranslate,
    Visible,
    CanControl,
    IK,
    AppendLocal,
    AppendRotate,
    AppendTranslate,
    AxesFixed,
    LocalAxes,
    DeformAfterPhysics,
    DeformOuterParent,
}

impl BoneFlags {
    /// The bit this flag occupies in the 16-bit flag set.
    pub open spec fn mask_spec(self) -> u16 {
        match self {
            BoneFlags::TargetMode => 0x0001,
            BoneFlags::CanRotate => 0x0002,
            BoneFlags::CanTranslate => 0x0004,
            BoneFlags::Visible => 0x0008,
            BoneFlags::CanControl => 0x0010,
            BoneFlags::IK => 0x0020,
            BoneFlags::AppendLocal => 0x0080,
            BoneFlags::AppendRotate => 0x0100,
            BoneFlags::AppendTranslate => 0x0200,
            BoneFlags::AxesFixed => 0x0400,
            BoneFlags::LocalAxes => 0x0800,
            BoneFlags::DeformAfterPhysics => 0x1000,
            BoneFlags::DeformOuterParent => 0x2000,
        }
    }

    /// The bit this flag occupies in the 16-bit flag set.
    pub fn mask(self) -> (m: u16)
        ensures
            m == self.mask_spec(),
    {
        match self {
            BoneFlags::TargetMode => 0x0001,
            BoneFlags::CanRotate => 0x0002,
            BoneFlags::CanTranslate => 0x0004,
            BoneFlags::Visible => 0x0008,
            BoneFlags::CanControl => 0x0010,
            BoneFlags::IK => 0x0020,
            BoneFlags::AppendLocal => 0x0080,
            BoneFlags::AppendRotate => 0x0100,
            BoneFlags::AppendTranslate => 0x0200,
            BoneFlags::AxesFixed => 0x0400,
            BoneFlags::LocalAxes => 0x0800,
            BoneFlags::DeformAfterPhysics => 0x1000,
            BoneFlags::DeformOuterParent => 0x2000,
        }
    }
}

/// One link of an inverse-kinematics chain: the target bone and an optional
/// rotation-limit pair gated by a 1-byte boolean (0 or 1; anything else is
/// a fatal error).
#[derive(Clone, Copy, Debug, PartialEq, Eq)]
pub struct IKLink {
    pub bone_id: Index,
    /// `Some((min, max))` when the limit byte is 1.
    pub limits: Option<(Vec3, Vec3)>,
}

/// One IK link read at `i`.
pub open spec fn spec_ik_link(s: Seq<u8>, i: int, w: u8) -> Result<(IKLink, int), DecodeError> {
    match spec_index(s, i, w) {
        Ok((bone_id, i1)) => match spec_u8(s, i1) {
            Ok((b, i2)) => if b == 0 {
                Ok((IKLink { bone_id, limits: None }, i2))
            } else if b == 1 {
                match spec_vec3(s, i2) {
                    Ok((mn, i3)) => match spec_vec3(s, i3) {
                        Ok((mx, j)) => Ok((IKLink { bone_id, limits: Some((mn, mx)) }, j)),
                        Err(e) => Err(e),
                    },
                    Err(e) => Err(e),
                }
            } else {
                Err(DecodeError::InvalidEnumValue)
            },
            Err(e) => Err(e),
        },
        Err(e) => Err(e),
    }
}

impl IKLink {
    /// Reads one IK link at bone-index width `w`.
    pub fn parse(r: &mut Reader, w: u8) -> (res: Result<IKLink, DecodeError>)
        requires
            old(r).wf(),
        ensures
            final(r).wf(),
            final(r).bytes() == old(r).bytes(),
            res matches Ok(v) ==> spec_ik_link(old(r).bytes(), old(r).position(), w) == Ok::<
                (IKLink, int),
                DecodeError,
            >((v, final(r).position())),
            res matches Err(e) ==> spec_ik_link(old(r).bytes(), old(r).position(), w) == Err::<
                (IKLink, int),
                DecodeError,
            >(e),
    {
        let bone_id = match Index::decode(r, w) {
            Ok(v) => v,
            Err(e) => {
                return Err(e);
            },
        };
        let b = match r.read_u8() {
            Ok(v) => v,
            Err(e) => {
                return Err(e);
            },
        };
        if b == 0 {
            Ok(IKLink { bone_id, limits: None })
        } else if b == 1 {
            let mn = match Vec3::parse(r) {
                Ok(v) => v,
                Err(e) => {
                    return Err(e);
                },
            };
            let mx = match Vec3::parse(r) {
                Ok(v) => v,
                Err(e) => {
                    return Err(e);
                },
            };
            Ok(IKLink { bone_id, limits: Some((mn, mx)) })
        } else {
            Err(DecodeError::InvalidEnumValue)
        }
    }
}

/// The element parser of an IK-link list at bone-index width `w`.
pub open spec fn ik_link_p(s: Seq<u8>, w: u8) -> spec_fn(int) -> Result<(IKLink, int), DecodeError> {
    |i: int| spec_ik_link(s, i, w)
}

/// `n` consecutive IK links read at `i`.
pub open spec fn spec_ik_links(s: Seq<u8>, i: int, w: u8, n: nat) -> Result<
    (Seq<IKLink>, int),
    DecodeError,
> {
    spec_count(ik_link_p(s, w), i, n)
}

/// Reads `n` consecutive IK links.
fn parse_ik_links(r: &mut Reader, w: u8, n: u32) -> (res: Result<Vec<IKLink>, DecodeError>)
    requires
        old(r).wf(),
    ensures
        final(r).wf(),
        final(r).bytes() == old(r).bytes(),
        res matches Ok(vs) ==> spec_ik_links(old(r).bytes(), old(r).position(), w, n as nat)
            == Ok::<(Seq<IKLink>, int), DecodeError>((vs@, final(r).position())),
        res matches Err(e) ==> spec_ik_links(old(r).bytes(), old(r).position(), w, n as nat)
            == Err::<(Seq<IKLink>, int), DecodeError>(e),
{
    let ghost s = r.bytes();
    let ghost i0 = r.position();
    let mut out: Vec<IKLink> = Vec::new();
    let mut k: u32 = 0;
    while k < n
        invariant
            r.wf(),
            r.bytes() == s,
            s == old(r).bytes(),
            i0 == old(r).position(),
            k <= n,
            spec_count(ik_link_p(s, w), i0, k as nat) == Ok::<(Seq<IKLink>, int), DecodeError>(
                (out@, r.position()),
            ),
        decreases n - k,
    {
        let ghost j = r.position();
        match IKLink::parse(r, w) {
            Ok(v) => {
                proof {
                    assert(ik_link_p(s, w)(j) == Ok::<(IKLink, int), DecodeError>(
                        (v, r.position()),
                    ));
                    lemma_count_step(ik_link_p(s, w), i0, k as nat, out@, j, v, r.position());
                }
                out.push(v);
                k = k + 1;
            },
            Err(e) => {
                proof {
                    assert(ik_link_p(s, w)(j) == Err::<(IKLink, int), DecodeError>(e));
                    lemma_count_step_err(ik_link_p(s, w), i0, k as nat, n as nat, out@, j, e);
                }
                return Err(e);
            },
        }
    }
    Ok(out)
}

/// The inverse-kinematics block of a bone: solver target, iteration count,
/// per-iteration angle limit (raw f32 bit pattern) and the count-prefixed
/// link chain.
#[derive(Debug, Clone, PartialEq, Eq)]
pub struct IkInfo {
    pub bone_id: Index,
    pub num_iterations: i32,
    pub limit: u32,
    pub links: Vec<IKLink>,
}

/// The mathematical value of an [`IkInfo`].
pub struct IkInfoM {
    pub bone_id: Index,
    pub num_iterations: i32,
    pub limit: u32,
    pub links: Seq<IKLink>,
}

impl View for IkInfo {
    type V = IkInfoM;

    open spec fn view(&self) -> IkInfoM {
        IkInfoM {
            bone_id: self.bone_id,
            num_iterations: self.num_iterations,
            limit: self.limit,
            links: self.links@,
        }
    }
}

/// The IK block read at `i`.
pub open spec fn spec_ik(s: Seq<u8>, i: int, w: u8) -> Result<(IkInfoM, int), DecodeError> {
    match spec_index(s, i, w) {
        Ok((bone_id, i1)) => match spec_i32(s, i1) {
            Ok((num_iterations, i2)) => match spec_u32(s, i2) {
                Ok((limit, i3)) => match spec_u32(s, i3) {
                    Ok((n, i4)) => match spec_ik_links(s, i4, w, n as nat) {
                        Ok((links, j)) => Ok(
                            (IkInfoM { bone_id, num_iterations, limit, links }, j),
                        ),
                        Err(e) => Err(e),
                    },
                    Err(e) => Err(e),
                },
                Err(e) => Err(e),
            },
            Err(e) => Err(e),
        },
        Err(e) => Err(e),
    }
}

/// Reads the IK block at bone-index width `w`.
fn parse_ik(r: &mut Reader, w: u8) -> (res: Result<IkInfo, DecodeError>)
    requires
        old(r).wf(),
    ensures
        final(r).wf(),
        final(r).bytes() == old(r).bytes(),
        res matches Ok(v) ==> spec_ik(old(r).bytes(), old(r).position(), w) == Ok::<
            (IkInfoM, int),
            DecodeError,
        >((v@, final(r).position())),
        res matches Err(e) ==> spec_ik(old(r).bytes(), old(r).position(), w) == Err::<
            (IkInfoM, int),
            DecodeError,
        >(e),
{
    let bone_id = match Index::decode(r, w) {
        Ok(v) => v,
        Err(e) => {
            return Err(e);
        },
    };
    let num_iterations = match r.read_i32() {
        Ok(v) => v,
        Err(e) => {
            return Err(e);
        },
    };
    let limit = match r.read_u32() {
        Ok(v) => v,
        Err(e) => {
            return Err(e);
        },
    };
    let n = match r.read_u32() {
        Ok(v) => v,
        Err(e) => {
            return Err(e);
        },
    };
    let links = match parse_ik_links(r, w, n) {
        Ok(v) => v,
        Err(e) => {
            return Err(e);
        },
    };
    Ok(IkInfo { bone_id, num_iterations, limit, links })
}

/// The flag-gated optional blocks of a bone.  Each field is present exactly
/// when its flag demands it; the stream holds no "absent" marker of its own.
#[derive(Debug, Clone, PartialEq, Eq)]
pub struct BoneExtraInfo {
    /// Present when `TargetMode` is clear.
    pub position_offset: Option<Vec3>,
    /// Present when `TargetMode` is set.
    pub link_id: Option<Index>,
    /// `Some((bone_id, weight))` when `AppendRotate` or `AppendTranslate`
    /// is set; one joint block, never two.
    pub append: Option<(Index, u32)>,
    /// Present when `AxesFixed` is set.
    pub fixed_axes: Option<Vec3>,
    /// `Some((rot_x, rot_z))` when `LocalAxes` is set.
    pub local_rot: Option<(Vec3, Vec3)>,
    /// Present when `DeformOuterParent` is set.
    pub key_value: Option<i32>,
    /// Present when `IK` is set.
    pub ik: Option<IkInfo>,
}

/// The mathematical value of a [`BoneExtraInfo`].
pub struct BoneExtraInfoM {
    pub position_offset: Option<Vec3>,
    pub link_id: Option<Index>,
    pub append: Option<(Index, u32)>,
    pub fixed_axes: Option<Vec3>,
    pub local_rot: Option<(Vec3, Vec3)>,
    pub key_value: Option<i32>,
    pub ik: Option<IkInfoM>,
}

impl View for BoneExtraInfo {
    type V = BoneExtraInfoM;

    open spec fn view(&self) -> BoneExtraInfoM {
        BoneExtraInfoM {
            position_offset: self.position_offset,
            link_id: self.link_id,
            append: self.append,
            fixed_axes: self.fixed_axes,
            local_rot: self.local_rot,
            key_value: self.key_value,
            ik: match self.ik {
                Some(ik) => Some(ik@),
                None => None,
            },
        }
    }
}

/// The optional blocks read at `i`, strictly in the fixed order: target,
/// append, fixed axes, local axes, outer-parent key, IK; each read exactly
/// when its flag is set in `flags`.
pub open spec fn spec_bone_extra(s: Seq<u8>, i: int, g: Globals, flags: ModeSet) -> Result<
    (BoneExtraInfoM, int),
    DecodeError,
> {
    let step1: Result<((Option<Vec3>, Option<Index>), int), DecodeError> = if flags.has(
        BoneFlags::TargetMode.mask_spec(),
    ) {
        match spec_index(s, i, g.bone_index_size) {
            Ok((id, j)) => Ok(((None, Some(id)), j)),
            Err(e) => Err(e),
        }
    } else {
        match spec_vec3(s, i) {
            Ok((v, j)) => Ok(((Some(v), None), j)),
            Err(e) => Err(e),
        }
    };
    match step1 {
        Ok(((position_offset, link_id), i1)) => {
            let step2: Result<(Option<(Index, u32)>, int), DecodeError> = if flags.has(
                BoneFlags::AppendRotate.mask_spec(),
            ) || flags.has(BoneFlags::AppendTranslate.mask_spec()) {
                match spec_index(s, i1, g.bone_index_size) {
                    Ok((id, j)) => match spec_u32(s, j) {
                        Ok((wt, j2)) => Ok((Some((id, wt)), j2)),
                        Err(e) => Err(e),
                    },
                    Err(e) => Err(e),
                }
            } else {
                Ok((None, i1))
            };
            match step2 {
                Ok((append, i2)) => {
                    let step3: Result<(Option<Vec3>, int), DecodeError> = if flags.has(
                        BoneFlags::AxesFixed.mask_spec(),
                    ) {
                        match spec_vec3(s, i2) {
                            Ok((v, j)) => Ok((Some(v), j)),
                            Err(e) => Err(e),
                        }
                    } else {
                        Ok((None, i2))
                    };
                    match step3 {
                        Ok((fixed_axes, i3)) => {
                            let step4: Result<(Option<(Vec3, Vec3)>, int), DecodeError> = if flags
                                .has(BoneFlags::LocalAxes.mask_spec()) {
                                match spec_vec3(s, i3) {
                                    Ok((x, j)) => match spec_vec3(s, j) {
                                        Ok((z, j2)) => Ok((Some((x, z)), j2)),
                                        Err(e) => Err(e),
                                    },
                                    Err(e) => Err(e),
                                }
                            } else {
                                Ok((None, i3))
                            };
                            match step4 {
                                Ok((local_rot, i4)) => {
                                    let step5: Result<(Option<i32>, int), DecodeError> = if flags
                                        .has(BoneFlags::DeformOuterParent.mask_spec()) {
                                        match spec_i32(s, i4) {
                                            Ok((v, j)) => Ok((Some(v), j)),
                                            Err(e) => Err(e),
                                        }
                                    } else {
                                        Ok((None, i4))
                                    };
                                    match step5 {
                                        Ok((key_value, i5)) => {
                                            let step6: Result<
                                                (Option<IkInfoM>, int),
                                                DecodeError,
                                            > = if flags.has(BoneFlags::IK.mask_spec()) {
                                                match spec_ik(s, i5, g.bone_index_size) {
                                                    Ok((ik, j)) => Ok((Some(ik), j)),
                                                    Err(e) => Err(e),
                                                }
                                            } else {
                                                Ok((None, i5))
                                            };
                                            match step6 {
                                                Ok((ik, j)) => Ok(
                                                    (
                                                        BoneExtraInfoM {
                                                            position_offset,
                                                            link_id,
                                                            append,
                                                            fixed_axes,
                                                            local_rot,
                                                            key_value,
                                                            ik,
                                                        },
                                                        j,
                                                    ),
                                                ),
                                                Err(e) => Err(e),
                                            }
                                        },
                                        Err(e) => Err(e),
                                    }
                                },
                                Err(e) => Err(e),
                            }
                        },
                        Err(e) => Err(e),
                    }
                },
                Err(e) => Err(e),
            }
        },
        Err(e) => Err(e),
    }
}

impl BoneExtraInfo {
    /// Reads the flag-gated optional blocks in their fixed order.
    #[verifier::rlimit(60)]
    #[verifier::spinoff_prover]
    pub fn parse(r: &mut Reader, g: &Globals, flags: ModeSet) -> (res: Result<
        BoneExtraInfo,
        DecodeError,
    >)
        requires
            old(r).wf(),
        ensures
            final(r).wf(),
            final(r).bytes() == old(r).bytes(),
            res matches Ok(v) ==> spec_bone_extra(old(r).bytes(), old(r).position(), *g, flags)
                == Ok::<(BoneExtraInfoM, int), DecodeError>((v@, final(r).position())),
            res matches Err(e) ==> spec_bone_extra(old(r).bytes(), old(r).position(), *g, flags)
                == Err::<(BoneExtraInfoM, int), DecodeError>(e),
    {
        let mut position_offset: Option<Vec3> = None;
        let mut link_id: Option<Index> = None;
        if flags.contains(BoneFlags::TargetMode.mask()) {
            match Index::decode(r, g.bone_index_size) {
                Ok(v) => {
                    link_id = Some(v);
                },
                Err(e) => {
                    return Err(e);
                },
            }
        } else {
            match Vec3::parse(r) {
                Ok(v) => {
                    position_offset = Some(v);
                },
                Err(e) => {
                    return Err(e);
                },
            }
        }
        let append: Option<(Index, u32)> = if flags.contains(BoneFlags::AppendRotate.mask())
            || flags.contains(BoneFlags::AppendTranslate.mask()) {
            let id = match Index::decode(r, g.bone_index_size) {
                Ok(v) => v,
                Err(e) => {
                    return Err(e);
                },
            };
            let wt = match r.read_u32() {
                Ok(v) => v,
                Err(e) => {
                    return Err(e);
                },
            };
            Some((id, wt))
        } else {
            None
        };
        let fixed_axes: Option<Vec3> = if flags.contains(BoneFlags::AxesFixed.mask()) {
            match Vec3::parse(r) {
                Ok(v) => Some(v),
                Err(e) => {
                    return Err(e);
                },
            }
        } else {
            None
        };
        let local_rot: Option<(Vec3, Vec3)> = if flags.contains(BoneFlags::LocalAxes.mask()) {
            let x = match Vec3::parse(r) {
                Ok(v) => v,
                Err(e) => {
                    return Err(e);
                },
            };
            let z = match Vec3::parse(r) {
                Ok(v) => v,
                Err(e) => {
                    return Err(e);
                },
            };
            Some((x, z))
        } else {
            None
        };
        let key_value: Option<i32> = if flags.contains(BoneFlags::DeformOuterParent.mask()) {
            match r.read_i32() {
                Ok(v) => Some(v),
                Err(e) => {
                    return Err(e);
                },
            }
        } else {
            None
        };
        let ik: Option<IkInfo> = if flags.contains(BoneFlags::IK.mask()) {
            match parse_ik(r, g.bone_index_size) {
                Ok(v) => Some(v),
                Err(e) => {
                    return Err(e);
                },
            }
        } else {
            None
        };
        Ok(BoneExtraInfo { position_offset, link_id, append, fixed_axes, local_rot, key_value, ik })
    }
}

/// One bone: localized names, rest position, parent reference, deform-order
/// depth, the 16-bit flag set, and the flag-gated optional blocks.
#[derive(Debug, Clone, PartialEq, Eq)]
pub struct Bone {
    pub name: PmxString,
    pub name_en: PmxString,
    pub position: Vec3,
    pub parent_id: Index,
    pub deform_depth: i32,
    pub flags: ModeSet,
    pub extra: BoneExtraInfo,
}

/// The mathematical value of a [`Bone`].
pub struct BoneM {
    pub name: Seq<char>,
    pub name_en: Seq<char>,
    pub position: Vec3,
    pub parent_id: Index,
    pub deform_depth: i32,
    pub flags: ModeSet,
    pub extra: BoneExtraInfoM,
}

impl View for Bone {
    type V = BoneM;

    open spec fn view(&self) -> BoneM {
        BoneM {
            name: self.name@,
            name_en: self.name_en@,
            position: self.position,
            parent_id: self.parent_id,
            deform_depth: self.deform_depth,
            flags: self.flags,
            extra: self.extra@,
        }
    }
}

/// One bone read at `i` under the Globals configuration: the fixed fields,
/// then the 16-bit flag set, then the optional blocks the flags demand.
pub open spec fn spec_bone(s: Seq<u8>, i: int, g: Globals) -> Result<(BoneM, int), DecodeError> {
    match spec_pmx_string(s, i, g.encoding) {
        Ok((name, i1)) => match spec_pmx_string(s, i1, g.encoding) {
            Ok((name_en, i2)) => match spec_vec3(s, i2) {
                Ok((position, i3)) => match spec_index(s, i3, g.bone_index_size) {
                    Ok((parent_id, i4)) => match spec_i32(s, i4) {
                        Ok((deform_depth, i5)) => match spec_u16(s, i5) {
                            Ok((bits, i6)) => {
                                let flags = ModeSet { bits };
                                match spec_bone_extra(s, i6, g, flags) {
                                    Ok((extra, j)) => Ok(
                                        (
                                            BoneM {
                                                name,
                                                name_en,
                                                position,
                                                parent_id,
                                                deform_depth,
                                                flags,
                                                extra,
                                            },
                                            j,
                                        ),
                                    ),
                                    Err(e) => Err(e),
                                }
                            },
                            Err(e) => Err(e),
                        },
                        Err(e) => Err(e),
                    },
                    Err(e) => Err(e),
                },
                Err(e) => Err(e),
            },
            Err(e) => Err(e),
        },
        Err(e) => Err(e),
    }
}

impl Bone {
    /// Reads one bone: fixed fields, the flag set, then the optional blocks
    /// in the fixed order the flags mandate.
    pub fn parse(r: &mut Reader, g: &Globals) -> (res: Result<Bone, DecodeError>)
        requires
            old(r).wf(),
            g.encoding == 0 || g.encoding == 1,
        ensures
            final(r).wf(),
            final(r).bytes() == old(r).bytes(),
            res matches Ok(v) ==> spec_bone(old(r).bytes(), old(r).position(), *g) == Ok::<
                (BoneM, int),
                DecodeError,
            >((v@, final(r).position())),
            res matches Err(e) ==> spec_bone(old(r).bytes(), old(r).position(), *g) == Err::<
                (BoneM, int),
                DecodeError,
            >(e),
    {
        let name = match PmxString::parse(r, g.encoding) {
            Ok(v) => v,
            Err(e) => {
                return Err(e);
            },
        };
        let name_en = match PmxString::parse(r, g.encoding) {
            Ok(v) => v,
            Err(e) => {
                return Err(e);
            },
        };
        let position = match Vec3::parse(r) {
            Ok(v) => v,
            Err(e) => {
                return Err(e);
            },
        };
        let parent_id = match Index::decode(r, g.bone_index_size) {
            Ok(v) => v,
            Err(e) => {
                return Err(e);
            },
        };
        let deform_depth = match r.read_i32() {
            Ok(v) => v,
            Err(e) => {
                return Err(e);
            },
        };
        let bits = match r.read_u16() {
            Ok(v) => v,
            Err(e) => {
                return Err(e);
            },
        };
        let flags = ModeSet { bits };
        let extra = match BoneExtraInfo::parse(r, g, flags) {
            Ok(v) => v,
            Err(e) => {
                return Err(e);
            },
        };
        Ok(Bone { name, name_en, position, parent_id, deform_depth, flags, extra })
    }
}

} // verus!
