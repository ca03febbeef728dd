use crate::error::DecodeError;
use crate::reader::{sign16, sign8, spec_i32, spec_u16, spec_u8, Reader};
use vstd::arithmetic::div_mod::{lemma_div_denominator, lemma_fundamental_div_mod};
use vstd::prelude::*;

verus! {

/// A logical signed 32-bit reference into a same-kind record list; -1 means
/// "no reference".
///
/// Canonical decoding rule (applied uniformly to every index kind but the
/// vertex kind): the stored 1-, 2- or 4-byte field is read as a
/// little-endian two's-complement signed integer of that width and
/// sign-extended to 32 bits, so the all-ones bit pattern of every width is
/// the -1 sentinel.  Vertex references (faces and vertex morphs) instead use
/// [`spec_le_unsigned`]: widths 1 and 2 are plain unsigned, width 4 is
/// signed; faces cannot be "absent".
#[derive(Clone, Copy, Debug, PartialEq, Eq, Structural)]
pub struct Index(pub i32);

/// A signed index of the given byte width read at `i` and sign-extended.
pub open spec fn spec_le_integer(s: Seq<u8>, i: int, size: u8) -> Result<(i32, int), DecodeError> {
    if size == 1 {
        match spec_u8(s, i) {
            Ok((b, j)) => Ok((sign8(b as int) as i32, j)),
            Err(e) => Err(e),
        }
    } else if size == 2 {
        match spec_u16(s, i) {
            Ok((v, j)) => Ok((sign16(v as int) as i32, j)),
            Err(e) => Err(e),
        }
    } else if size == 4 {
        spec_i32(s, i)
    } else {
        Err(DecodeError::InvalidIndexWidth)
    }
}

/// An unsigned vertex index of the given byte width read at `i` (width 4 is
/// signed, as wide as the logical index itself).
pub open spec fn spec_le_unsigned(s: Seq<u8>, i: int, size: u8) -> Result<(i32, int), DecodeError> {
    if size == 1 {
        match spec_u8(s, i) {
            Ok((b, j)) => Ok((b as i32, j)),
            Err(e) => Err(e),
        }
    } else if size == 2 {
        match spec_u16(s, i) {
            Ok((v, j)) => Ok((v as i32, j)),
            Err(e) => Err(e),
        }
    } else if size == 4 {
        spec_i32(s, i)
    } else {
        Err(DecodeError::InvalidIndexWidth)
    }
}

/// An [`Index`] read by the signed rule.
pub open spec fn spec_index(s: Seq<u8>, i: int, size: u8) -> Result<(Index, int), DecodeError> {
    match spec_le_integer(s, i, size) {
        Ok((v, j)) => Ok((Index(v), j)),
        Err(e) => Err(e),
    }
}

/// Reads a signed index of width `size` (bone, texture, material, morph and
/// rigidbody references), sign-extending to the logical 32-bit index.
pub fn le_integer(r: &mut Reader, size: u8) -> (res: Result<i32, DecodeError>)
    requires
        old(r).wf(),
    ensures
        final(r).wf(),
        final(r).bytes() == old(r).bytes(),
        res matches Ok(v) ==> spec_le_integer(old(r).bytes(), old(r).position(), size) == Ok::<
            (i32, int),
            DecodeError,
        >((v, final(r).position())),
        res matches Err(e) ==> spec_le_integer(old(r).bytes(), old(r).position(), size) == Err::<
            (i32, int),
            DecodeError,
        >(e),
{
    if size == 1 {
        let b = match r.read_u8() {
            Ok(v) => v,
            Err(e) => {
                return Err(e);
            },
        };
        if b < 0x80 {
            Ok(b as i32)
        } else {
            Ok(b as i32 - 0x100)
        }
    } else if size == 2 {
        let v = match r.read_u16() {
            Ok(v) => v,
            Err(e) => {
                return Err(e);
            },
        };
        if v < 0x8000 {
            Ok(v as i32)
        } else {
            Ok(v as i32 - 0x1_0000)
        }
    } else if size == 4 {
        r.read_i32()
    } else {
        Err(DecodeError::InvalidIndexWidth)
    }
}

/// Reads an unsigned vertex index of width `size` (faces and vertex morphs).
pub fn le_unsigned(r: &mut Reader, size: u8) -> (res: Result<i32, DecodeError>)
    requires
        old(r).wf(),
    ensures
        final(r).wf(),
        final(r).bytes() == old(r).bytes(),
        res matches Ok(v) ==> spec_le_unsigned(old(r).bytes(), old(r).position(), size) == Ok::<
            (i32, int),
            DecodeError,
        >((v, final(r).position())),
        res matches Err(e) ==> spec_le_unsigned(old(r).bytes(), old(r).position(), size) == Err::<
            (i32, int),
            DecodeError,
        >(e),
{
    if size == 1 {
        let b = match r.read_u8() {
            Ok(v) => v,
            Err(e) => {
                return Err(e);
            },
        };
        Ok(b as i32)
    } else if size == 2 {
        let v = match r.read_u16() {
            Ok(v) => v,
            Err(e) => {
                return Err(e);
            },
        };
        Ok(v as i32)
    } else if size == 4 {
        r.read_i32()
    } else {
        Err(DecodeError::InvalidIndexWidth)
    }
}

impl Index {
    /// Reads an [`Index`] by the signed rule at width `size`.
    pub fn decode(r: &mut Reader, size: u8) -> (res: Result<Index, DecodeError>)
        requires
            old(r).wf(),
        ensures
            final(r).wf(),
            final(r).bytes() == old(r).bytes(),
            res matches Ok(v) ==> spec_index(old(r).bytes(), old(r).position(), size) == Ok::<
                (Index, int),
                DecodeError,
            >((v, final(r).position())),
            res matches Err(e) ==> spec_index(old(r).bytes(), old(r).position(), size) == Err::<
                (Index, int),
                DecodeError,
            >(e),
    {
        match le_integer(r, size) {
            Ok(v) => Ok(Index(v)),
            Err(e) => Err(e),
        }
    }
}

/// Whether the logical index `v` is representable at width `size` under the
/// signed rule.
pub open spec fn index_fits(v: int, size: u8) -> bool {
    if size == 1 {
        -0x80 <= v < 0x80
    } else if size == 2 {
        -0x8000 <= v < 0x8000
    } else if size == 4 {
        -0x8000_0000 <= v < 0x8000_0000
    } else {
        false
    }
}

/// Whether the logical index `v` is representable at width `size` under the
/// unsigned vertex rule.
pub open spec fn uindex_fits(v: int, size: u8) -> bool {
    if size == 1 {
        0 <= v < 0x100
    } else if size == 2 {
        0 <= v < 0x1_0000
    } else if size == 4 {
        -0x8000_0000 <= v < 0x8000_0000
    } else {
        false
    }
}

/// The `size` little-endian bytes that store the logical index `v`: its
/// two's-complement bit pattern at that width.  The same bytes serve both
/// index rules, since a value admitted by the unsigned rule is stored as its
/// plain binary form.
pub open spec fn spec_encode_index(v: int, size: u8) -> Seq<u8>
    recommends
        index_fits(v, size) || uindex_fits(v, size),
{
    if size == 1 {
        let m = if v >= 0 {
            v
        } else {
            v + 0x100
        };
        seq![m as u8]
    } else if size == 2 {
        let m = if v >= 0 {
            v
        } else {
            v + 0x1_0000
        };
        seq![(m % 0x100) as u8, (m / 0x100) as u8]
    } else {
        let m = if v >= 0 {
            v
        } else {
            v + 0x1_0000_0000
        };
        seq![
            (m % 0x100) as u8,
            ((m / 0x100) % 0x100) as u8,
            ((m / 0x1_0000) % 0x100) as u8,
            ((m / 0x100_0000) % 0x100) as u8,
        ]
    }
}

/// Writes the little-endian storage form of the logical index `v` at width
/// `size`, under whichever of the two rules can represent it.
pub fn encode_index(v: i32, size: u8) -> (res: Vec<u8>)
    requires
        size == 1 || size == 2 || size == 4,
        index_fits(v as int, size) || uindex_fits(v as int, size),
    ensures
        res@ == spec_encode_index(v as int, size),
        res@.len() == size as int,
{
    let mut out: Vec<u8> = Vec::new();
    if size == 1 {
        let m: u32 = if v >= 0 {
            v as u32
        } else {
            (v + 0x100) as u32
        };
        out.push(m as u8);
    } else if size == 2 {
        let m: u32 = if v >= 0 {
            v as u32
        } else {
            (v + 0x1_0000) as u32
        };
        out.push((m % 0x100) as u8);
        out.push((m / 0x100) as u8);
    } else {
        let m: u32 = if v >= 0 {
            v as u32
        } else {
            ((v as i64) + 0x1_0000_0000i64) as u32
        };
        out.push((m % 0x100) as u8);
        out.push(((m / 0x100) % 0x100) as u8);
        out.push(((m / 0x1_0000) % 0x100) as u8);
        out.push(((m / 0x100_0000) % 0x100) as u8);
    }
    proof {
        assert(out@ =~= spec_encode_index(v as int, size));
    }
    out
}

/// The value of four base-256 digits taken from `m` is `m` itself.
proof fn lemma_digits32(m: int)
    requires
        0 <= m < 0x1_0000_0000,
    ensures
        m % 0x100 + 0x100 * ((m / 0x100) % 0x100) + 0x1_0000 * ((m / 0x1_0000) % 0x100)
            + 0x100_0000 * ((m / 0x100_0000) % 0x100) == m,
        (m / 0x100_0000) % 0x100 == m / 0x100_0000,
{
    lemma_fundamental_div_mod(m, 0x100);
    lemma_fundamental_div_mod(m / 0x100, 0x100);
    lemma_fundamental_div_mod(m / 0x1_0000, 0x100);
    lemma_div_denominator(m, 0x100, 0x100);
    lemma_div_denominator(m, 0x1_0000, 0x100);
}

/// Law: encoding a logical index at any of the widths 1, 2 or 4 and decoding
/// it by the signed rule yields the original index, the -1 "no reference"
/// sentinel included.
pub proof fn lemma_index_round_trip(v: int, size: u8)
    requires
        size == 1 || size == 2 || size == 4,
        index_fits(v, size),
    ensures
        spec_le_integer(spec_encode_index(v, size), 0, size) == Ok::<(i32, int), DecodeError>(
            (v as i32, size as int),
        ),
{
    let s = spec_encode_index(v, size);
    if size == 2 {
        let m = if v >= 0 {
            v
        } else {
            v + 0x1_0000
        };
        lemma_fundamental_div_mod(m, 0x100);
    } else if size == 4 {
        let m = if v >= 0 {
            v
        } else {
            v + 0x1_0000_0000
        };
        lemma_digits32(m);
    }
}

/// Law: encoding a logical vertex index at any of the widths 1, 2 or 4 and
/// decoding it by the unsigned vertex rule yields the original index.
pub proof fn lemma_unsigned_index_round_trip(v: int, size: u8)
    requires
        size == 1 || size == 2 || size == 4,
        uindex_fits(v, size),
    ensures
        spec_le_unsigned(spec_encode_index(v, size), 0, size) == Ok::<(i32, int), DecodeError>(
            (v as i32, size as int),
        ),
{
    let s = spec_encode_index(v, size);
    if size == 2 {
        lemma_fundamental_div_mod(v, 0x100);
    } else if size == 4 {
        let m = if v >= 0 {
            v
        } else {
            v + 0x1_0000_0000
        };
        lemma_digits32(m);
    }
}

} // verus!
