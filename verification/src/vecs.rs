use crate::error::DecodeError;
use crate::reader::{spec_u32, Reader};
use vstd::prelude::*;

verus! {

/// A 2-component float vector.  Each component is kept as the raw 32-bit
/// little-endian bit pattern of the IEEE-754 value in the file; the decoder
/// never interprets the bits.
#[derive(Clone, Copy, Debug, PartialEq, Eq, Structural)]
pub struct Vec2 {
    pub x: u32,
    pub y: u32,
}

/// A 3-component float vector, components as raw bit patterns.
#[derive(Clone, Copy, Debug, PartialEq, Eq, Structural)]
pub struct Vec3 {
    pub x: u32,
    pub y: u32,
    pub z: u32,
}

/// A 4-component float vector, components as raw bit patterns.
#[derive(Clone, Copy, Debug, PartialEq, Eq, Structural)]
pub struct Vec4 {
    pub x: u32,
    pub y: u32,
    pub z: u32,
    pub w: u32,
}

/// Two consecutive 4-byte components read at `i`.
pub open spec fn spec_vec2(s: Seq<u8>, i: int) -> Result<(Vec2, int), DecodeError> {
    match spec_u32(s, i) {
        Ok((x, i1)) => match spec_u32(s, i1) {
            Ok((y, i2)) => Ok((Vec2 { x, y }, i2)),
            Err(e) => Err(e),
        },
        Err(e) => Err(e),
    }
}

/// Three consecutive 4-byte components read at `i`.
pub open spec fn spec_vec3(s: Seq<u8>, i: int) -> Result<(Vec3, int), DecodeError> {
    match spec_u32(s, i) {
        Ok((x, i1)) => match spec_u32(s, i1) {
            Ok((y, i2)) => match spec_u32(s, i2) {
                Ok((z, i3)) => Ok((Vec3 { x, y, z }, i3)),
                Err(e) => Err(e),
            },
            Err(e) => Err(e),
        },
        Err(e) => Err(e),
    }
}

/// Four consecutive 4-byte components read at `i`.
pub open spec fn spec_vec4(s: Seq<u8>, i: int) -> Result<(Vec4, int), DecodeError> {
    match spec_u32(s, i) {
        Ok((x, i1)) => match spec_u32(s, i1) {
            Ok((y, i2)) => match spec_u32(s, i2) {
                Ok((z, i3)) => match spec_u32(s, i3) {
                    Ok((w, i4)) => Ok((Vec4 { x, y, z, w }, i4)),
                    Err(e) => Err(e),
                },
                Err(e) => Err(e),
            },
            Err(e) => Err(e),
        },
        Err(e) => Err(e),
    }
}

impl Vec2 {
    /// Reads the two components in file order.
    pub fn parse(r: &mut Reader) -> (res: Result<Vec2, DecodeError>)
        requires
            old(r).wf(),
        ensures
            final(r).wf(),
            final(r).bytes() == old(r).bytes(),
            res matches Ok(v) ==> spec_vec2(old(r).bytes(), old(r).position()) == Ok::<
                (Vec2, int),
                DecodeError,
            >((v, final(r).position())),
            res matches Err(e) ==> spec_vec2(old(r).bytes(), old(r).position()) == Err::<
                (Vec2, int),
                DecodeError,
            >(e),
    {
        let x = match r.read_u32() {
            Ok(v) => v,
            Err(e) => {
                return Err(e);
            },
        };
        let y = match r.read_u32() {
            Ok(v) => v,
            Err(e) => {
                return Err(e);
            },
        };
        Ok(Vec2 { x, y })
    }
}

impl Vec3 {
    /// Reads the three components in file order.
    pub fn parse(r: &mut Reader) -> (res: Result<Vec3, DecodeError>)
        requires
            old(r).wf(),
        ensures
            final(r).wf(),
            final(r).bytes() == old(r).bytes(),
            res matches Ok(v) ==> spec_vec3(old(r).bytes(), old(r).position()) == Ok::<
                (Vec3, int),
                DecodeError,
            >((v, final(r).position())),
            res matches Err(e) ==> spec_vec3(old(r).bytes(), old(r).position()) == Err::<
                (Vec3, int),
                DecodeError,
            >(e),
    {
        let x = match r.read_u32() {
            Ok(v) => v,
            Err(e) => {
                return Err(e);
            },
        };
        let y = match r.read_u32() {
            Ok(v) => v,
            Err(e) => {
                return Err(e);
            },
        };
        let z = match r.read_u32() {
            Ok(v) => v,
            Err(e) => {
                return Err(e);
            },
        };
        Ok(Vec3 { x, y, z })
    }
}

impl Vec4 {
    /// Reads the four components in file order.
    pub fn parse(r: &mut Reader) -> (res: Result<Vec4, DecodeError>)
        requires
            old(r).wf(),
        ensures
            final(r).wf(),
            final(r).bytes() == old(r).bytes(),
            res matches Ok(v) ==> spec_vec4(old(r).bytes(), old(r).position()) == Ok::<
                (Vec4, int),
                DecodeError,
            >((v, final(r).position())),
            res matches Err(e) ==> spec_vec4(old(r).bytes(), old(r).position()) == Err::<
                (Vec4, int),
                DecodeError,
            >(e),
    {
        let x = match r.read_u32() {
            Ok(v) => v,
            Err(e) => {
                return Err(e);
            },
        };
        let y = match r.read_u32() {
            Ok(v) => v,
            Err(e) => {
                return Err(e);
            },
        };
        let z = match r.read_u32() {
            Ok(v) => v,
            Err(e) => {
                return Err(e);
            },
        };
        let w = match r.read_u32() {
            Ok(v) => v,
            Err(e) => {
                return Err(e);
            },
        };
        Ok(Vec4 { x, y, z, w })
    }
}

} // verus!
