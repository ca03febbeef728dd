use vstd::prelude::*;

verus! {

/// The single error taxonomy of the decoder.  Decoding is fail-fast: the
/// first anomaly anywhere aborts the whole parse and surfaces one of these
/// values; there is no partial result and no recovery.
#[derive(Clone, Copy, Debug, PartialEq, Eq, Structural)]
pub enum DecodeError {
    /// The byte source was exhausted before a required read completed.
    Truncated,
    /// The first four bytes of the file were not `PMX `.
    BadMagic,
    /// The globals-block length byte was not 8.
    UnsupportedHeader,
    /// A closed one-byte enumeration (string-encoding tag, sphere mode,
    /// toon mode, bone-weight type, morph type, or a one-byte boolean)
    /// held a value outside its set.
    InvalidEnumValue,
    /// One of the six configured index widths was not 1, 2 or 4.
    InvalidIndexWidth,
    /// A string's bytes were not valid under the declared encoding.
    TextDecode,
}

impl DecodeError {
    /// The description that `describe` returns for each variant.
    pub open spec fn describe_spec(self) -> Seq<char> {
        match self {
            DecodeError::Truncated => "unexpected end of input"@,
            DecodeError::BadMagic => "unknown format"@,
            DecodeError::UnsupportedHeader => "unsupported globals-block length"@,
            DecodeError::InvalidEnumValue => "invalid enumeration value"@,
            DecodeError::InvalidIndexWidth => "unknown index size"@,
            DecodeError::TextDecode => "text decoding failed"@,
        }
    }

    /// A human-readable description of the error.
    pub fn describe(&self) -> (r: &'static str)
        ensures
            r@ == self.describe_spec(),
    {
        match self {
            DecodeError::Truncated => "unexpected end of input",
            DecodeError::BadMagic => "unknown format",
            DecodeError::UnsupportedHeader => "unsupported globals-block length",
            DecodeError::InvalidEnumValue => "invalid enumeration value",
            DecodeError::InvalidIndexWidth => "unknown index size",
            DecodeError::TextDecode => "text decoding failed",
        }
    }
}

} // verus!
