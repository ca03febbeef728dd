use crate::error::DecodeError;
use crate::pmxstring::{spec_pmx_string, PmxString};
use crate::reader::{spec_exact, spec_u32, spec_u8, Reader};
use vstd::prelude::*;

verus! {

/// Whether `w` is one of the three storable index widths.
pub open spec fn valid_width(w: u8) -> bool {
    w == 1 || w == 2 || w == 4
}

/// The per-file configuration block: the string-encoding tag (0 = UTF-16LE,
/// 1 = UTF-8), the count of additional per-vertex vec4 attributes, and the
/// six index widths (one per referencable record kind).  Decoded once at
/// header time, it fixes the layout of every later record.
#[derive(Clone, Copy, Debug, PartialEq, Eq, Structural)]
pub struct Globals {
    pub encoding: u8,
    pub additional: u8,
    pub vertex_index_size: u8,
    pub texture_index_size: u8,
    pub material_index_size: u8,
    pub bone_index_size: u8,
    pub morph_index_size: u8,
    pub rigidbody_index_size: u8,
}

impl Globals {
    /// All six widths are 1, 2 or 4.
    pub open spec fn widths_ok(self) -> bool {
        valid_width(self.vertex_index_size) && valid_width(self.texture_index_size)
            && valid_width(self.material_index_size) && valid_width(self.bone_index_size)
            && valid_width(self.morph_index_size) && valid_width(self.rigidbody_index_size)
    }

    /// Validity established at header-decode time, before any record is
    /// read: a known encoding tag and six storable widths.
    pub open spec fn wf(self) -> bool {
        (self.encoding == 0 || self.encoding == 1) && self.widths_ok()
    }

    /// The eight globals fields taken from the first eight bytes of `b`, in
    /// fixed field order.
    pub fn from_bytes(b: &[u8]) -> (g: Globals)
        requires
            b@.len() >= 8,
        ensures
            g == spec_globals(b@),
    {
        Globals {
            encoding: b[0],
            additional: b[1],
            vertex_index_size: b[2],
            texture_index_size: b[3],
            material_index_size: b[4],
            bone_index_size: b[5],
            morph_index_size: b[6],
            rigidbody_index_size: b[7],
        }
    }

    /// Writes the eight globals bytes back, in the same fixed field order.
    pub fn to_bytes(&self) -> (b: Vec<u8>)
        ensures
            b@ == spec_globals_bytes(*self),
            b@.len() == 8,
    {
        let mut out: Vec<u8> = Vec::new();
        out.push(self.encoding);
        out.push(self.additional);
        out.push(self.vertex_index_size);
        out.push(self.texture_index_size);
        out.push(self.material_index_size);
        out.push(self.bone_index_size);
        out.push(self.morph_index_size);
        out.push(self.rigidbody_index_size);
        proof {
            assert(out@ =~= spec_globals_bytes(*self));
        }
        out
    }

    /// Runtime check of [`Globals::widths_ok`].
    pub fn widths_check(&self) -> (r: bool)
        ensures
            r == self.widths_ok(),
    {
        width_ok(self.vertex_index_size) && width_ok(self.texture_index_size) && width_ok(
            self.material_index_size,
        ) && width_ok(self.bone_index_size) && width_ok(self.morph_index_size) && width_ok(
            self.rigidbody_index_size,
        )
    }
}

/// Runtime check of [`valid_width`].
fn width_ok(w: u8) -> (r: bool)
    ensures
        r == valid_width(w),
{
    w == 1 || w == 2 || w == 4
}

/// The Globals taken from the first eight bytes of `b`, in field order.
pub open spec fn spec_globals(b: Seq<u8>) -> Globals
    recommends
        b.len() >= 8,
{
    Globals {
        encoding: b[0],
        additional: b[1],
        vertex_index_size: b[2],
        texture_index_size: b[3],
        material_index_size: b[4],
        bone_index_size: b[5],
        morph_index_size: b[6],
        rigidbody_index_size: b[7],
    }
}

/// The eight bytes that store `g`, in the same field order.
pub open spec fn spec_globals_bytes(g: Globals) -> Seq<u8> {
    seq![
        g.encoding,
        g.additional,
        g.vertex_index_size,
        g.texture_index_size,
        g.material_index_size,
        g.bone_index_size,
        g.morph_index_size,
        g.rigidbody_index_size,
    ]
}

/// Law: decoding a globals block keeps the exact eight bytes.  Writing the
/// decoded Globals back yields the block byte for byte, order preserved, and
/// re-decoding written bytes yields the same Globals again.
pub proof fn lemma_globals_round_trip(b: Seq<u8>, g: Globals)
    requires
        b.len() == 8,
    ensures
        spec_globals_bytes(spec_globals(b)) == b,
        spec_globals(spec_globals_bytes(g)) == g,
{
    assert(spec_globals_bytes(spec_globals(b)) =~= b);
}

/// The file header: the informational format version (raw f32 bit pattern),
/// the Globals, and the four localized strings, in file order.
#[derive(Debug, Clone, PartialEq, Eq)]
pub struct Header {
    pub version: u32,
    pub globals: Globals,
    pub model_name: PmxString,
    pub model_name_en: PmxString,
    pub comment: PmxString,
    pub comment_en: PmxString,
}

/// The mathematical value of a [`Header`].
pub struct HeaderM {
    pub version: u32,
    pub globals: Globals,
    pub model_name: Seq<char>,
    pub model_name_en: Seq<char>,
    pub comment: Seq<char>,
    pub comment_en: Seq<char>,
}

impl View for Header {
    type V = HeaderM;

    open spec fn view(&self) -> HeaderM {
        HeaderM {
            version: self.version,
            globals: self.globals,
            model_name: self.model_name@,
            model_name_en: self.model_name_en@,
            comment: self.comment@,
            comment_en: self.comment_en@,
        }
    }
}

/// The header read at `i`: the `PMX ` magic, the version, the globals-block
/// length byte (which must be 8), the eight globals bytes (validated before
/// any further decoding), then the four localized strings under the
/// just-decoded encoding.
pub open spec fn spec_header(s: Seq<u8>, i: int) -> Result<(HeaderM, int), DecodeError> {
    match spec_exact(s, i, 4) {
        Ok((m, i1)) => if m == seq![0x50u8, 0x4du8, 0x58u8, 0x20u8] {
            match spec_u32(s, i1) {
                Ok((version, i2)) => match spec_u8(s, i2) {
                    Ok((glen, i3)) => if glen == 8 {
                        match spec_exact(s, i3, 8) {
                            Ok((gb, i4)) => {
                                let g = spec_globals(gb);
                                if !(g.encoding == 0 || g.encoding == 1) {
                                    Err(DecodeError::InvalidEnumValue)
                                } else if !g.widths_ok() {
                                    Err(DecodeError::InvalidIndexWidth)
                                } else {
                                    match spec_pmx_string(s, i4, g.encoding) {
                                        Ok((model_name, i5)) => match spec_pmx_string(
                                            s,
                                            i5,
                                            g.encoding,
                                        ) {
                                            Ok((model_name_en, i6)) => match spec_pmx_string(
                                                s,
                                                i6,
                                                g.encoding,
                                            ) {
                                                Ok((comment, i7)) => match spec_pmx_string(
                                                    s,
                                                    i7,
                                                    g.encoding,
                                                ) {
                                                    Ok((comment_en, i8)) => Ok(
                                                        (
                                                            HeaderM {
                                                                version,
                                                                globals: g,
                                                                model_name,
                                                                model_name_en,
                                                                comment,
                                                                comment_en,
                                                            },
                                                            i8,
                                                        ),
                                                    ),
                                                    Err(e) => Err(e),
                                                },
                                                Err(e) => Err(e),
                                            },
                                            Err(e) => Err(e),
                                        },
                                        Err(e) => Err(e),
                                    }
                                }
                            },
                            Err(e) => Err(e),
                        }
                    } else {
                        Err(DecodeError::UnsupportedHeader)
                    },
                    Err(e) => Err(e),
                },
                Err(e) => Err(e),
            }
        } else {
            Err(DecodeError::BadMagic)
        },
        Err(e) => Err(e),
    }
}

impl Header {
    /// Reads and validates the header, fail-fast: the first anomaly (wrong
    /// magic, globals-block length other than 8, unknown encoding tag, an
    /// index width outside {1, 2, 4}, or a string failure) aborts.
    pub fn parse(r: &mut Reader) -> (res: Result<Header, DecodeError>)
        requires
            old(r).wf(),
        ensures
            final(r).wf(),
            final(r).bytes() == old(r).bytes(),
            res matches Ok(h) ==> spec_header(old(r).bytes(), old(r).position()) == Ok::<
                (HeaderM, int),
                DecodeError,
            >((h@, final(r).position())) && h.globals.wf(),
            res matches Err(e) ==> spec_header(old(r).bytes(), old(r).position()) == Err::<
                (HeaderM, int),
                DecodeError,
            >(e),
    {
        let magic = match r.read_exact(4) {
            Ok(v) => v,
            Err(e) => {
                return Err(e);
            },
        };
        proof {
            assert(magic@.len() == 4);
        }
        if !(magic[0] == 0x50 && magic[1] == 0x4d && magic[2] == 0x58 && magic[3] == 0x20) {
            proof {
                assert(magic@ != seq![0x50u8, 0x4du8, 0x58u8, 0x20u8]);
            }
            return Err(DecodeError::BadMagic);
        }
        proof {
            assert(magic@ =~= seq![0x50u8, 0x4du8, 0x58u8, 0x20u8]);
        }
        let version = match r.read_u32() {
            Ok(v) => v,
            Err(e) => {
                return Err(e);
            },
        };
        let glen = match r.read_u8() {
            Ok(v) => v,
            Err(e) => {
                return Err(e);
            },
        };
        if glen != 8 {
            return Err(DecodeError::UnsupportedHeader);
        }
        let gb = match r.read_exact(8) {
            Ok(v) => v,
            Err(e) => {
                return Err(e);
            },
        };
        let g = Globals::from_bytes(gb.as_slice());
        if !(g.encoding == 0 || g.encoding == 1) {
            return Err(DecodeError::InvalidEnumValue);
        }
        if !g.widths_check() {
            return Err(DecodeError::InvalidIndexWidth);
        }
        let model_name = match PmxString::parse(r, g.encoding) {
            Ok(v) => v,
            Err(e) => {
                return Err(e);
            },
        };
        let model_name_en = match PmxString::parse(r, g.encoding) {
            Ok(v) => v,
            Err(e) => {
                return Err(e);
            },
        };
        let comment = match PmxString::parse(r, g.encoding) {
            Ok(v) => v,
            Err(e) => {
                return Err(e);
            },
        };
        let comment_en = match PmxString::parse(r, g.encoding) {
            Ok(v) => v,
            Err(e) => {
                return Err(e);
            },
        };
        Ok(Header { version, globals: g, model_name, model_name_en, comment, comment_en })
    }
}

} // verus!

