use crate::error::DecodeError;
use crate::reader::{spec_exact, spec_u32, Reader};
use encoding::Encoding;
use vstd::prelude::*;
use vstd::utf8::{decode_utf8, valid_utf8};

verus! {

/// The characters that the outside UTF-16LE decoder yields for `bytes`, or
/// `None` where it rejects them.  The decoder is a pure function of the
/// bytes, so the result is named rather than spelled out.
pub uninterp spec fn utf16le_decoded(bytes: Seq<u8>) -> Option<Seq<char>>;

/// Relies on `encoding::all::UTF_16LE`'s `Encoding::decode` with
/// `DecoderTrap::Strict`: it decodes the byte sequence as UTF-16LE, a pure
/// function of the bytes alone, and errs (rather than substituting) on any
/// malformed input such as a lone surrogate or a trailing odd byte.
#[verifier::external_body]
fn utf16le_to_string(b: &Vec<u8>) -> (r: Option<String>)
    ensures
        match r {
            Some(s) => utf16le_decoded(b@) == Some(s@),
            None => utf16le_decoded(b@) is None,
        },
{
    encoding::all::UTF_16LE.decode(b.as_slice(), encoding::DecoderTrap::Strict).ok()
}

/// Relies on `String::from_utf8`: it succeeds exactly on valid UTF-8 and
/// returns the string of those bytes' characters, which vstd's UTF-8 model
/// (`valid_utf8` / `decode_utf8`) states exactly.
#[verifier::external_body]
fn utf8_to_string(b: Vec<u8>) -> (r: Option<String>)
    ensures
        match r {
            Some(s) => valid_utf8(b@) && s@ == decode_utf8(b@),
            None => !valid_utf8(b@),
        },
{
    String::from_utf8(b).ok()
}

/// The characters of `bytes` under the Globals encoding tag: 0 = UTF-16LE,
/// 1 = UTF-8; `None` where the declared encoding rejects the bytes.
pub open spec fn spec_text(bytes: Seq<u8>, encoding: u8) -> Option<Seq<char>>
    recommends
        encoding == 0 || encoding == 1,
{
    if encoding == 0 {
        utf16le_decoded(bytes)
    } else if encoding == 1 {
        if valid_utf8(bytes) {
            Some(decode_utf8(bytes))
        } else {
            None
        }
    } else {
        None
    }
}

/// A localized string of the file, stored as a u32 byte length followed by
/// that many bytes in the Globals-declared encoding.
#[derive(Debug, Clone, PartialEq, Eq)]
pub struct PmxString(pub String);

impl View for PmxString {
    type V = Seq<char>;

    open spec fn view(&self) -> Seq<char> {
        self.0@
    }
}

/// A length-prefixed string read at `i` and decoded under `encoding`.
pub open spec fn spec_pmx_string(s: Seq<u8>, i: int, encoding: u8) -> Result<
    (Seq<char>, int),
    DecodeError,
> {
    match spec_u32(s, i) {
        Ok((n, i1)) => match spec_exact(s, i1, n as int) {
            Ok((raw, i2)) => match spec_text(raw, encoding) {
                Some(t) => Ok((t, i2)),
                None => Err(DecodeError::TextDecode),
            },
            Err(e) => Err(e),
        },
        Err(e) => Err(e),
    }
}

impl PmxString {
    /// Reads a length-prefixed localized string: a u32 byte count, then that
    /// many raw bytes, decoded under `encoding` (0 = UTF-16LE, 1 = UTF-8).
    pub fn parse(r: &mut Reader, encoding: u8) -> (res: Result<PmxString, DecodeError>)
        requires
            old(r).wf(),
            encoding == 0 || encoding == 1,
        ensures
            final(r).wf(),
            final(r).bytes() == old(r).bytes(),
            res matches Ok(v) ==> spec_pmx_string(old(r).bytes(), old(r).position(), encoding)
                == Ok::<(Seq<char>, int), DecodeError>((v@, final(r).position())),
            res matches Err(e) ==> spec_pmx_string(old(r).bytes(), old(r).position(), encoding)
                == Err::<(Seq<char>, int), DecodeError>(e),
    {
        let n = match r.read_u32() {
            Ok(v) => v,
            Err(e) => {
                return Err(e);
            },
        };
        let raw = match r.read_exact(n as usize) {
            Ok(v) => v,
            Err(e) => {
                return Err(e);
            },
        };
        if encoding == 0 {
            match utf16le_to_string(&raw) {
                Some(s) => Ok(PmxString(s)),
                None => Err(DecodeError::TextDecode),
            }
        } else {
            match utf8_to_string(raw) {
                Some(s) => Ok(PmxString(s)),
                None => Err(DecodeError::TextDecode),
            }
        }
    }
}

/// The native/English localized name pair carried by models, materials and
/// morphs.
#[derive(Debug, Clone, PartialEq, Eq)]
pub struct Name {
    pub jp: PmxString,
    pub en: PmxString,
}

/// The mathematical value of a [`Name`]: both strings' characters.
pub struct NameM {
    pub jp: Seq<char>,
    pub en: Seq<char>,
}

impl View for Name {
    type V = NameM;

    open spec fn view(&self) -> NameM {
        NameM { jp: self.jp@, en: self.en@ }
    }
}

/// Two localized strings read at `i` in file order: native, then English.
pub open spec fn spec_name(s: Seq<u8>, i: int, encoding: u8) -> Result<(NameM, int), DecodeError> {
    match spec_pmx_string(s, i, encoding) {
        Ok((jp, i1)) => match spec_pmx_string(s, i1, encoding) {
            Ok((en, i2)) => Ok((NameM { jp, en }, i2)),
            Err(e) => Err(e),
        },
        Err(e) => Err(e),
    }
}

impl Name {
    /// Reads the native and English strings in file order.
    pub fn parse(r: &mut Reader, encoding: u8) -> (res: Result<Name, DecodeError>)
        requires
            old(r).wf(),
            encoding == 0 || encoding == 1,
        ensures
            final(r).wf(),
            final(r).bytes() == old(r).bytes(),
            res matches Ok(v) ==> spec_name(old(r).bytes(), old(r).position(), encoding) == Ok::<
                (NameM, int),
                DecodeError,
            >((v@, final(r).position())),
            res matches Err(e) ==> spec_name(old(r).bytes(), old(r).position(), encoding) == Err::<
                (NameM, int),
                DecodeError,
            >(e),
    {
        let jp = match PmxString::parse(r, encoding) {
            Ok(v) => v,
            Err(e) => {
                return Err(e);
            },
        };
        let en = match PmxString::parse(r, encoding) {
            Ok(v) => v,
            Err(e) => {
                return Err(e);
            },
        };
        Ok(Name { jp, en })
    }
}

/// One texture record: a localized file-path string.  The path is relative
/// to the PMX file's own directory; resolving it is the consumer's contract.
#[derive(Debug, Clone, PartialEq, Eq)]
pub struct Texture(pub PmxString);

impl View for Texture {
    type V = Seq<char>;

    open spec fn view(&self) -> Seq<char> {
        self.0@
    }
}

impl Texture {
    /// Reads one texture path string.
    pub fn parse(r: &mut Reader, encoding: u8) -> (res: Result<Texture, DecodeError>)
        requires
            old(r).wf(),
            encoding == 0 || encoding == 1,
        ensures
            final(r).wf(),
            final(r).bytes() == old(r).bytes(),
            res matches Ok(v) ==> spec_pmx_string(old(r).bytes(), old(r).position(), encoding)
                == Ok::<(Seq<char>, int), DecodeError>((v@, final(r).position())),
            res matches Err(e) ==> spec_pmx_string(old(r).bytes(), old(r).position(), encoding)
                == Err::<(Seq<char>, int), DecodeError>(e),
    {
        match PmxString::parse(r, encoding) {
            Ok(v) => Ok(Texture(v)),
            Err(e) => Err(e),
        }
    }
}

} // verus!
