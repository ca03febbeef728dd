use crate::error::DecodeError;
use crate::globals::Globals;
use crate::pmxindex::{spec_index, Index};
use crate::pmxstring::{spec_name, spec_pmx_string, Name, NameM, PmxString};
use crate::reader::{spec_i32, spec_u32, spec_u8, Reader};
use crate::vecs::{spec_vec3, spec_vec4, Vec3, Vec4};
use vstd::prelude::*;

verus! {

/// The eight draw-mode flags of a material.  The stored byte is a plain
/// bitmask: every bit pattern is accepted.
#[derive(Clone, Copy, Debug, PartialEq, Eq, Structural)]
pub enum DrawModeFlags {
    TwoSided,
    GroundShadow,
    CastSelfShadow,
    RecieveSelfShadow,
    DrawEdge,
    VertexColor,
    DrawPoint,
    DrawLine,
}

impl DrawModeFlags {
    /// The bit this flag occupies in the draw-mode byte.
    pub open spec fn mask_spec(self) -> u16 {
        match self {
            DrawModeFlags::TwoSided => 0x01,
            DrawModeFlags::GroundShadow => 0x02,
            DrawModeFlags::CastSelfShadow => 0x04,
            DrawModeFlags::RecieveSelfShadow => 0x08,
            DrawModeFlags::DrawEdge => 0x10,
            DrawModeFlags::VertexColor => 0x20,
            DrawModeFlags::DrawPoint => 0x40,
            DrawModeFlags::DrawLine => 0x80,
        }
    }

    /// The bit this flag occupies in the draw-mode byte.
    pub fn mask(self) -> (m: u16)
        ensures
            m == self.mask_spec(),
    {
        match self {
            DrawModeFlags::TwoSided => 0x01,
            DrawModeFlags::GroundShadow => 0x02,
            DrawModeFlags::CastSelfShadow => 0x04,
            DrawModeFlags::RecieveSelfShadow => 0x08,
            DrawModeFlags::DrawEdge => 0x10,
            DrawModeFlags::VertexColor => 0x20,
            DrawModeFlags::DrawPoint => 0x40,
            DrawModeFlags::DrawLine => 0x80,
        }
    }
}

/// A decoded bit-flag set: the raw stored bits, kept verbatim.  Which flag
/// enumeration the bits belong to is fixed by the field that holds the set.
#[derive(Clone, Copy, Debug, PartialEq, Eq, Structural)]
pub struct ModeSet {
    pub bits: u16,
}

impl ModeSet {
    /// Whether every bit of `mask` is set.
    pub open spec fn has(self, mask: u16) -> bool {
        self.bits & mask == mask
    }

    /// Whether every bit of `mask` is set.
    pub fn contains(self, mask: u16) -> (r: bool)
        ensures
            r == self.has(mask),
    {
        self.bits & mask == mask
    }
}

/// The sphere-texture blend mode, a closed four-value enumeration.
#[allow(non_camel_case_types)]
#[derive(Clone, Copy, Debug, PartialEq, Eq, Structural)]
pub enum SphereMode {
    NONE,
    MUL,
    ADD,
    SUB,
}

/// The SphereMode of the ordinal byte `t`, or `None` outside the closed set.
pub open spec fn spec_sphere_mode(t: u8) -> Option<SphereMode> {
    if t == 0 {
        Some(SphereMode::NONE)
    } else if t == 1 {
        Some(SphereMode::MUL)
    } else if t == 2 {
        Some(SphereMode::ADD)
    } else if t == 3 {
        Some(SphereMode::SUB)
    } else {
        None
    }
}

impl SphereMode {
    /// Maps the stored ordinal byte to the mode, `None` outside 0-3.
    pub fn from_u8(t: u8) -> (r: Option<SphereMode>)
        ensures
            r == spec_sphere_mode(t),
    {
        if t == 0 {
            Some(SphereMode::NONE)
        } else if t == 1 {
            Some(SphereMode::MUL)
        } else if t == 2 {
            Some(SphereMode::ADD)
        } else if t == 3 {
            Some(SphereMode::SUB)
        } else {
            None
        }
    }
}

/// The toon reference mode: a separate texture record, or one of the shared
/// built-in toon textures.
#[derive(Clone, Copy, Debug, PartialEq, Eq, Structural)]
pub enum ToonMode {
    Separate,
    Common,
}

/// The ToonMode of the ordinal byte `t`, or `None` outside the closed set.
pub open spec fn spec_toon_mode(t: u8) -> Option<ToonMode> {
    if t == 0 {
        Some(ToonMode::Separate)
    } else if t == 1 {
        Some(ToonMode::Common)
    } else {
        None
    }
}

impl ToonMode {
    /// Maps the stored ordinal byte to the mode, `None` outside 0-1.
    pub fn from_u8(t: u8) -> (r: Option<ToonMode>)
        ensures
            r == spec_toon_mode(t),
    {
        if t == 0 {
            Some(ToonMode::Separate)
        } else if t == 1 {
            Some(ToonMode::Common)
        } else {
            None
        }
    }
}

/// One material: localized name, colors (raw f32 bit patterns), the
/// draw-mode bitmask, edge parameters, three texture references at the
/// texture-index width, the two mode enums, a memo string, and the count of
/// consecutive face-index entries that belong to this material.
#[derive(Debug, Clone, PartialEq, Eq)]
pub struct Material {
    pub name: Name,
    pub diffuse: Vec4,
    pub specular: Vec3,
    pub intensity: u32,
    pub ambient: Vec3,
    pub draw_mode: ModeSet,
    pub edge_color: Vec4,
    pub edge_size: u32,
    pub texture_id: Index,
    pub sphere_texture_id: Index,
    pub sphere_mode: SphereMode,
    pub toon_mode: ToonMode,
    pub toon_texture_id: Index,
    pub memo: PmxString,
    pub num_vertex_indices: i32,
}

/// The mathematical value of a [`Material`].
pub struct MaterialM {
    pub name: NameM,
    pub diffuse: Vec4,
    pub specular: Vec3,
    pub intensity: u32,
    pub ambient: Vec3,
    pub draw_mode: ModeSet,
    pub edge_color: Vec4,
    pub edge_size: u32,
    pub texture_id: Index,
    pub sphere_texture_id: Index,
    pub sphere_mode: SphereMode,
    pub toon_mode: ToonMode,
    pub toon_texture_id: Index,
    pub memo: Seq<char>,
    pub num_vertex_indices: i32,
}

impl View for Material {
    type V = MaterialM;

    open spec fn view(&self) -> MaterialM {
        MaterialM {
            name: self.name@,
            diffuse: self.diffuse,
            specular: self.specular,
            intensity: self.intensity,
            ambient: self.ambient,
            draw_mode: self.draw_mode,
            edge_color: self.edge_color,
            edge_size: self.edge_size,
            texture_id: self.texture_id,
            sphere_texture_id: self.sphere_texture_id,
            sphere_mode: self.sphere_mode,
            toon_mode: self.toon_mode,
            toon_texture_id: self.toon_texture_id,
            memo: self.memo@,
            num_vertex_indices: self.num_vertex_indices,
        }
    }
}

/// One material read at `i` under the Globals configuration, fields in file
/// order.  The draw-mode byte is kept verbatim; the sphere- and toon-mode
/// ordinals are validated against their closed sets.
pub open spec fn spec_material(s: Seq<u8>, i: int, g: Globals) -> Result<
    (MaterialM, int),
    DecodeError,
> {
    match spec_name(s, i, g.encoding) {
        Ok((name, i1)) => match spec_vec4(s, i1) {
            Ok((diffuse, i2)) => match spec_vec3(s, i2) {
                Ok((specular, i3)) => match spec_u32(s, i3) {
                    Ok((intensity, i4)) => match spec_vec3(s, i4) {
                        Ok((ambient, i5)) => match spec_u8(s, i5) {
                            Ok((dm, i6)) => match spec_vec4(s, i6) {
                                Ok((edge_color, i7)) => match spec_u32(s, i7) {
                                    Ok((edge_size, i8)) => match spec_index(
                                        s,
                                        i8,
                                        g.texture_index_size,
                                    ) {
                                        Ok((texture_id, i9)) => match spec_index(
                                            s,
                                            i9,
                                            g.texture_index_size,
                                        ) {
                                            Ok((sphere_texture_id, i10)) => match spec_u8(s, i10) {
                                                Ok((sm, i11)) => match spec_sphere_mode(sm) {
                                                    Some(sphere_mode) => match spec_u8(s, i11) {
                                                        Ok((tm, i12)) => match spec_toon_mode(tm) {
                                                            Some(toon_mode) => match spec_index(
                                                                s,
                                                                i12,
                                                                g.texture_index_size,
                                                            ) {
                                                                Ok((toon_texture_id, i13)) => match spec_pmx_string(
                                                                    s,
                                                                    i13,
                                                                    g.encoding,
                                                                ) {
                                                                    Ok((memo, i14)) => match spec_i32(
                                                                        s,
                                                                        i14,
                                                                    ) {
                                                                        Ok(
                                                                            (num_vertex_indices, j),
                                                                        ) => Ok(
                                                                            (
                                                                                MaterialM {
                                                                                    name,
                                                                                    diffuse,
                                                                                    specular,
                                                                                    intensity,
                                                                                    ambient,
                                                                                    draw_mode: ModeSet {
                                                                                        bits: dm as u16,
                                                                                    },
                                                                                    edge_color,
                                                                                    edge_size,
                                                                                    texture_id,
                                                                                    sphere_texture_id,
                                                                                    sphere_mode,
                                                                                    toon_mode,
                                                                                    toon_texture_id,
                                                                                    memo,
                                                                                    num_vertex_indices,
                                                                                },
                                                                                j,
                                                                            ),
                                                                        ),
                                                                        Err(e) => Err(e),
                                                                    },
                                                                    Err(e) => Err(e),
                                                                },
                                                                Err(e) => Err(e),
                                                            },
                                                            None => Err(
                                                                DecodeError::InvalidEnumValue,
                                                            ),
                                                        },
                                                        Err(e) => Err(e),
                                                    },
                                                    None => Err(DecodeError::InvalidEnumValue),
                                                },
                                                Err(e) => Err(e),
                                            },
                                            Err(e) => Err(e),
                                        },
                                        Err(e) => Err(e),
                                    },
                                    Err(e) => Err(e),
                                },
                                Err(e) => Err(e),
                            },
                            Err(e) => Err(e),
                        },
                        Err(e) => Err(e),
                    },
                    Err(e) => Err(e),
                },
                Err(e) => Err(e),
            },
            Err(e) => Err(e),
        },
        Err(e) => Err(e),
    }
}

impl Material {
    /// Reads one material in file order under the Globals configuration.
    pub fn parse(r: &mut Reader, g: &Globals) -> (res: Result<Material, DecodeError>)
        requires
            old(r).wf(),
            g.encoding == 0 || g.encoding == 1,
        ensures
            final(r).wf(),
            final(r).bytes() == old(r).bytes(),
            res matches Ok(v) ==> spec_material(old(r).bytes(), old(r).position(), *g) == Ok::<
                (MaterialM, int),
                DecodeError,
            >((v@, final(r).position())),
            res matches Err(e) ==> spec_material(old(r).bytes(), old(r).position(), *g) == Err::<
                (MaterialM, int),
                DecodeError,
            >(e),
    {
        let name = match Name::parse(r, g.encoding) {
            Ok(v) => v,
            Err(e) => {
                return Err(e);
            },
        };
        let diffuse = match Vec4::parse(r) {
            Ok(v) => v,
            Err(e) => {
                return Err(e);
            },
        };
        let specular = match Vec3::parse(r) {
            Ok(v) => v,
            Err(e) => {
                return Err(e);
            },
        };
        let intensity = match r.read_u32() {
            Ok(v) => v,
            Err(e) => {
                return Err(e);
            },
        };
        let ambient = match Vec3::parse(r) {
            Ok(v) => v,
            Err(e) => {
                return Err(e);
            },
        };
        let dm = match r.read_u8() {
            Ok(v) => v,
            Err(e) => {
                return Err(e);
            },
        };
        let edge_color = match Vec4::parse(r) {
            Ok(v) => v,
            Err(e) => {
                return Err(e);
            },
        };
        let edge_size = match r.read_u32() {
            Ok(v) => v,
            Err(e) => {
                return Err(e);
            },
        };
        let texture_id = match Index::decode(r, g.texture_index_size) {
            Ok(v) => v,
            Err(e) => {
                return Err(e);
            },
        };
        let sphere_texture_id = match Index::decode(r, g.texture_index_size) {
            Ok(v) => v,
            Err(e) => {
                return Err(e);
            },
        };
        let sm = match r.read_u8() {
            Ok(v) => v,
            Err(e) => {
                return Err(e);
            },
        };
        let sphere_mode = match SphereMode::from_u8(sm) {
            Some(v) => v,
            None => {
                return Err(DecodeError::InvalidEnumValue);
            },
        };
        let tm = match r.read_u8() {
            Ok(v) => v,
            Err(e) => {
                return Err(e);
            },
        };
        let toon_mode = match ToonMode::from_u8(tm) {
            Some(v) => v,
            None => {
                return Err(DecodeError::InvalidEnumValue);
            },
        };
        let toon_texture_id = match Index::decode(r, g.texture_index_size) {
            Ok(v) => v,
            Err(e) => {
                return Err(e);
            },
        };
        let memo = match PmxString::parse(r, g.encoding) {
            Ok(v) => v,
            Err(e) => {
                return Err(e);
            },
        };
        let num_vertex_indices = match r.read_i32() {
            Ok(v) => v,
            Err(e) => {
                return Err(e);
            },
        };
        Ok(
            Material {
                name,
                diffuse,
                specular,
                intensity,
                ambient,
                draw_mode: ModeSet { bits: dm as u16 },
                edge_color,
                edge_size,
                texture_id,
                sphere_texture_id,
                sphere_mode,
                toon_mode,
                toon_texture_id,
                memo,
                num_vertex_indices,
            },
        )
    }
}

} // verus!
