use crate::error::DecodeError;
use vstd::prelude::*;

verus! {

/// The little-endian value of the two bytes at `i`.
pub open spec fn le16_val(s: Seq<u8>, i: int) -> int
    recommends
        0 <= i,
        i + 2 <= s.len(),
{
    s[i] + 0x100 * s[i + 1]
}

/// The little-endian value of the four bytes at `i`.
pub open spec fn le32_val(s: Seq<u8>, i: int) -> int
    recommends
        0 <= i,
        i + 4 <= s.len(),
{
    s[i] + 0x100 * s[i + 1] + 0x1_0000 * s[i + 2] + 0x100_0000 * s[i + 3]
}

/// The value `v` of one raw byte reinterpreted as a two's-complement i8.
pub open spec fn sign8(v: int) -> int
    recommends
        0 <= v < 0x100,
{
    if v < 0x80 {
        v
    } else {
        v - 0x100
    }
}

/// The value `v` of two raw bytes reinterpreted as a two's-complement i16.
pub open spec fn sign16(v: int) -> int
    recommends
        0 <= v < 0x1_0000,
{
    if v < 0x8000 {
        v
    } else {
        v - 0x1_0000
    }
}

/// The value `v` of four raw bytes reinterpreted as a two's-complement i32.
pub open spec fn sign32(v: int) -> int
    recommends
        0 <= v < 0x1_0000_0000,
{
    if v < 0x8000_0000 {
        v
    } else {
        v - 0x1_0000_0000
    }
}

/// One byte read at `i`: the byte and the next cursor position.
pub open spec fn spec_u8(s: Seq<u8>, i: int) -> Result<(u8, int), DecodeError>
    recommends
        0 <= i,
{
    if i + 1 <= s.len() {
        Ok((s[i], i + 1))
    } else {
        Err(DecodeError::Truncated)
    }
}

/// A little-endian u16 read at `i`.
pub open spec fn spec_u16(s: Seq<u8>, i: int) -> Result<(u16, int), DecodeError>
    recommends
        0 <= i,
{
    if i + 2 <= s.len() {
        Ok((le16_val(s, i) as u16, i + 2))
    } else {
        Err(DecodeError::Truncated)
    }
}

/// A little-endian u32 read at `i`.
pub open spec fn spec_u32(s: Seq<u8>, i: int) -> Result<(u32, int), DecodeError>
    recommends
        0 <= i,
{
    if i + 4 <= s.len() {
        Ok((le32_val(s, i) as u32, i + 4))
    } else {
        Err(DecodeError::Truncated)
    }
}

/// A little-endian two's-complement i32 read at `i`.
pub open spec fn spec_i32(s: Seq<u8>, i: int) -> Result<(i32, int), DecodeError>
    recommends
        0 <= i,
{
    if i + 4 <= s.len() {
        Ok((sign32(le32_val(s, i)) as i32, i + 4))
    } else {
        Err(DecodeError::Truncated)
    }
}

/// A raw block of `n` bytes read at `i`.
pub open spec fn spec_exact(s: Seq<u8>, i: int, n: int) -> Result<(Seq<u8>, int), DecodeError>
    recommends
        0 <= i,
        0 <= n,
{
    if i + n <= s.len() {
        Ok((s.subrange(i, i + n), i + n))
    } else {
        Err(DecodeError::Truncated)
    }
}

/// The cursor over the byte source: the whole input and a position that only
/// moves forward.  Every decoder threads one `Reader` by exclusive reference;
/// there is no seeking and no ambient state.
pub struct Reader {
    data: Vec<u8>,
    pos: usize,
}

impl Reader {
    /// The whole underlying byte sequence (never changed by reads).
    pub closed spec fn bytes(&self) -> Seq<u8> {
        self.data@
    }

    /// The current cursor position.
    pub closed spec fn position(&self) -> int {
        self.pos as int
    }

    /// The cursor stays between the start and the end of the input.
    pub open spec fn wf(&self) -> bool {
        0 <= self.position() <= self.bytes().len()
    }

    /// A reader standing at the start of `data`.
    pub fn new(data: Vec<u8>) -> (r: Reader)
        ensures
            r.wf(),
            r.bytes() == data@,
            r.position() == 0,
    {
        Reader { data, pos: 0 }
    }

    /// The current cursor offset from the start of the input.
    pub fn pos(&self) -> (p: usize)
        ensures
            p as int == self.position(),
    {
        self.pos
    }

    /// Reads one byte.
    pub fn read_u8(&mut self) -> (res: Result<u8, DecodeError>)
        requires
            old(self).wf(),
        ensures
            final(self).wf(),
            final(self).bytes() == old(self).bytes(),
            res matches Ok(b) ==> spec_u8(old(self).bytes(), old(self).position()) == Ok::<
                (u8, int),
                DecodeError,
            >((b, final(self).position())),
            res matches Err(e) ==> spec_u8(old(self).bytes(), old(self).position()) == Err::<
                (u8, int),
                DecodeError,
            >(e) && final(self).position() == old(self).position(),
    {
        if self.pos < self.data.len() {
            let b = self.data[self.pos];
            self.pos = self.pos + 1;
            Ok(b)
        } else {
            Err(DecodeError::Truncated)
        }
    }

    /// Reads a little-endian u16.
    pub fn read_u16(&mut self) -> (res: Result<u16, DecodeError>)
        requires
            old(self).wf(),
        ensures
            final(self).wf(),
            final(self).bytes() == old(self).bytes(),
            res matches Ok(v) ==> spec_u16(old(self).bytes(), old(self).position()) == Ok::<
                (u16, int),
                DecodeError,
            >((v, final(self).position())),
            res matches Err(e) ==> spec_u16(old(self).bytes(), old(self).position()) == Err::<
                (u16, int),
                DecodeError,
            >(e) && final(self).position() == old(self).position(),
    {
        if self.data.len() - self.pos >= 2 {
            let b0 = self.data[self.pos];
            let b1 = self.data[self.pos + 1];
            self.pos = self.pos + 2;
            Ok(b0 as u16 + b1 as u16 * 0x100)
        } else {
            Err(DecodeError::Truncated)
        }
    }

    /// Reads a little-endian u32.
    pub fn read_u32(&mut self) -> (res: Result<u32, DecodeError>)
        requires
            old(self).wf(),
        ensures
            final(self).wf(),
            final(self).bytes() == old(self).bytes(),
            res matches Ok(v) ==> spec_u32(old(self).bytes(), old(self).position()) == Ok::<
                (u32, int),
                DecodeError,
            >((v, final(self).position())),
            res matches Err(e) ==> spec_u32(old(self).bytes(), old(self).position()) == Err::<
                (u32, int),
                DecodeError,
            >(e) && final(self).position() == old(self).position(),
    {
        if self.data.len() - self.pos >= 4 {
            let b0 = self.data[self.pos];
            let b1 = self.data[self.pos + 1];
            let b2 = self.data[self.pos + 2];
            let b3 = self.data[self.pos + 3];
            self.pos = self.pos + 4;
            Ok(b0 as u32 + b1 as u32 * 0x100 + b2 as u32 * 0x1_0000 + b3 as u32 * 0x100_0000)
        } else {
            Err(DecodeError::Truncated)
        }
    }

    /// Reads a little-endian two's-complement i32.
    pub fn read_i32(&mut self) -> (res: Result<i32, DecodeError>)
        requires
            old(self).wf(),
        ensures
            final(self).wf(),
            final(self).bytes() == old(self).bytes(),
            res matches Ok(v) ==> spec_i32(old(self).bytes(), old(self).position()) == Ok::<
                (i32, int),
                DecodeError,
            >((v, final(self).position())),
            res matches Err(e) ==> spec_i32(old(self).bytes(), old(self).position()) == Err::<
                (i32, int),
                DecodeError,
            >(e) && final(self).position() == old(self).position(),
    {
        let v = match self.read_u32() {
            Ok(v) => v,
            Err(e) => {
                return Err(e);
            },
        };
        if v <= 0x7FFF_FFFF {
            Ok(v as i32)
        } else {
            Ok((v as i64 - 0x1_0000_0000i64) as i32)
        }
    }

    /// Reads exactly `n` raw bytes.
    pub fn read_exact(&mut self, n: usize) -> (res: Result<Vec<u8>, DecodeError>)
        requires
            old(self).wf(),
        ensures
            final(self).wf(),
            final(self).bytes() == old(self).bytes(),
            res matches Ok(v) ==> spec_exact(old(self).bytes(), old(self).position(), n as int)
                == Ok::<(Seq<u8>, int), DecodeError>((v@, final(self).position())),
            res matches Err(e) ==> spec_exact(old(self).bytes(), old(self).position(), n as int)
                == Err::<(Seq<u8>, int), DecodeError>(e) && final(self).position() == old(
                self,
            ).position(),
    {
        if self.data.len() - self.pos >= n {
            let ghost s = self.data@;
            let ghost p0 = self.pos as int;
            let mut v: Vec<u8> = Vec::new();
            let mut k: usize = 0;
            while k < n
                invariant
                    self.data@ == s,
                    self.pos as int == p0,
                    0 <= p0,
                    p0 + n <= s.len(),
                    p0 + n <= usize::MAX,
                    k <= n,
                    v@ == s.subrange(p0, p0 + k as int),
                decreases n - k,
            {
                let b = self.data[self.pos + k];
                v.push(b);
                k = k + 1;
                proof {
                    assert(v@ =~= s.subrange(p0, p0 + k as int));
                }
            }
            self.pos = self.pos + n;
            Ok(v)
        } else {
            Err(DecodeError::Truncated)
        }
    }
}

} // verus!

