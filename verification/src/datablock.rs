use crate::pmxindex::{encode_index, index_fits, spec_encode_index, uindex_fits};
use vstd::prelude::*;

verus! {

/// The four little-endian bytes that store the u32 value `v`.
pub open spec fn spec_le32_bytes(v: u32) -> Seq<u8> {
    seq![
        (v % 0x100) as u8,
        ((v / 0x100) % 0x100) as u8,
        ((v / 0x1_0000) % 0x100) as u8,
        ((v / 0x100_0000) % 0x100) as u8,
    ]
}

/// A byte-block builder: bytes are appended in call order and taken out as
/// one vector.  Tests assemble hand-written record streams with it.
pub struct DataBlock(Vec<u8>);

impl View for DataBlock {
    type V = Seq<u8>;

    closed spec fn view(&self) -> Seq<u8> {
        self.0@
    }
}

impl DataBlock {
    /// An empty block.
    pub fn new() -> (r: DataBlock)
        ensures
            r@ == Seq::<u8>::empty(),
    {
        DataBlock(Vec::new())
    }

    /// Takes the accumulated bytes out.
    pub fn unwrap(self) -> (r: Vec<u8>)
        ensures
            r@ == self@,
    {
        let DataBlock(v) = self;
        v
    }

    /// Appends the given bytes verbatim.
    pub fn push_bytes(&mut self, b: &[u8])
        ensures
            final(self)@ == old(self)@ + b@,
    {
        let mut k: usize = 0;
        let n = b.len();
        while k < n
            invariant
                n == b@.len(),
                k <= n,
                self@ == old(self)@ + b@.subrange(0, k as int),
            decreases n - k,
        {
            self.0.push(b[k]);
            k = k + 1;
            proof {
                assert(self@ =~= old(self)@ + b@.subrange(0, k as int));
            }
        }
        proof {
            assert(old(self)@ + b@.subrange(0, n as int) =~= old(self)@ + b@);
        }
    }

    /// Appends one byte.
    pub fn push_u8(&mut self, b: u8)
        ensures
            final(self)@ == old(self)@.push(b),
    {
        self.0.push(b);
    }

    /// Appends a u32 as four little-endian bytes.
    pub fn push_u32(&mut self, v: u32)
        ensures
            final(self)@ == old(self)@ + spec_le32_bytes(v),
    {
        self.0.push((v % 0x100) as u8);
        self.0.push(((v / 0x100) % 0x100) as u8);
        self.0.push(((v / 0x1_0000) % 0x100) as u8);
        self.0.push(((v / 0x100_0000) % 0x100) as u8);
        proof {
            assert(self@ =~= old(self)@ + spec_le32_bytes(v));
        }
    }

    /// Appends a logical index in its storage form at width `size`.
    pub fn push_index(&mut self, v: i32, size: u8)
        requires
            size == 1 || size == 2 || size == 4,
            index_fits(v as int, size) || uindex_fits(v as int, size),
        ensures
            final(self)@ == old(self)@ + spec_encode_index(v as int, size),
    {
        let b = encode_index(v, size);
        self.push_bytes(b.as_slice());
    }

    /// Appends an i32 as four little-endian two's-complement bytes.
    pub fn push_i32(&mut self, v: i32)
        ensures
            final(self)@ == old(self)@ + spec_encode_index(v as int, 4),
    {
        self.push_index(v, 4);
    }
}

} // verus!
