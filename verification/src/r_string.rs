//! The host's built-in strings: bytes with an encoding label.
//!
//! The label is only a claim; turning a host string into text checks both
//! that the label is UTF-8-compatible and that the bytes really decode.

use vstd::prelude::*;
use crate::error::Error;
use crate::value::{Encoding, Value, ValueKind, CLASS_STRING};

verus! {

/// What a byte sequence decodes to as UTF-8, if it is valid UTF-8.
pub uninterp spec fn utf8_decode(bytes: Seq<u8>) -> Option<Seq<char>>;

/// Relies on `String::from_utf8`: the result is a function of the bytes
/// alone, `Ok` exactly on valid UTF-8, and then the decoding of those
/// bytes.
#[verifier::external_body]
fn decode_utf8(bytes: &Vec<u8>) -> (r: Option<String>)
    ensures
        r is Some <==> utf8_decode(bytes@) is Some,
        r matches Some(s) ==> s@ == utf8_decode(bytes@)->Some_0,
{
    std::string::String::from_utf8(bytes.clone()).ok()
}

/// What a byte sequence decodes to under lossy UTF-8 decoding: maximal
/// valid runs kept, each invalid sequence replaced by the replacement
/// character.
pub uninterp spec fn lossy_utf8(bytes: Seq<u8>) -> Seq<char>;

/// Relies on `String::from_utf8_lossy`: the result is a function of the
/// bytes alone, and on valid UTF-8 it is exactly the decoding of those
/// bytes.
#[verifier::external_body]
fn decode_utf8_lossy(bytes: &Vec<u8>) -> (r: String)
    ensures
        r@ == lossy_utf8(bytes@),
        utf8_decode(bytes@) matches Some(s) ==> r@ == s,
{
    std::string::String::from_utf8_lossy(bytes.as_slice()).into_owned()
}

/// The encoding label claims UTF-8-compatible text: UTF-8 itself, or
/// US-ASCII, its fully compatible subset.
pub open spec fn spec_utf8_compatible(encoding: Encoding) -> bool {
    encoding == Encoding::Utf8 || encoding == Encoding::UsAscii
}

/// A value known to be one of the host's strings.
#[derive(Clone, PartialEq, Eq, Debug)]
pub struct RString {
    /// The string's bytes.
    pub bytes: Vec<u8>,
    /// The encoding label on the bytes.
    pub encoding: Encoding,
}

impl RString {
    /// Create a host string labelled UTF-8 from the given bytes.  The
    /// label provides no guarantee that the bytes really are valid UTF-8.
    pub fn new(bytes: Vec<u8>) -> (s: RString)
        ensures
            s == (RString { bytes, encoding: Encoding::Utf8 }),
    {
        RString { bytes, encoding: Encoding::Utf8 }
    }

    /// Create a host string of raw bytes, with no text interpretation.
    pub fn from_slice(bytes: Vec<u8>) -> (s: RString)
        ensures
            s == (RString { bytes, encoding: Encoding::Binary }),
    {
        RString { bytes, encoding: Encoding::Binary }
    }

    /// Return `Some(RString)` if `val` is a host string, `None` otherwise.
    pub fn from_value(val: Value) -> (r: Option<RString>)
        ensures
            val.kind matches ValueKind::Str { bytes, encoding }
                ==> (r matches Some(s) && s == (RString { bytes, encoding })),
            !(val.kind is Str) ==> r is None,
    {
        match val.kind {
            ValueKind::Str { bytes, encoding } => Some(RString { bytes, encoding }),
            _ => None,
        }
    }

    /// Checked conversion: a value that is not a host string fails with a
    /// type-conversion error naming the expected and the actual class.
    pub fn try_convert(val: Value) -> (r: Result<RString, Error>)
        ensures
            val.kind matches ValueKind::Str { bytes, encoding }
                ==> (r matches Ok(s) && s == (RString { bytes, encoding })),
            !(val.kind is Str) ==> (r matches Err(e) && e == (Error::TypeError {
                expected_class: CLASS_STRING,
                actual_class: val.spec_class_of(),
            })),
    {
        let actual_class = val.class_of();
        match val.kind {
            ValueKind::Str { bytes, encoding } => Ok(RString { bytes, encoding }),
            _ => Err(Error::TypeError { expected_class: CLASS_STRING, actual_class }),
        }
    }

    /// Give up the typed view and return the untyped handle.
    pub fn into_value(self) -> (v: Value)
        ensures
            v.kind == (ValueKind::Str { bytes: self.bytes, encoding: self.encoding }),
    {
        Value { kind: ValueKind::Str { bytes: self.bytes, encoding: self.encoding } }
    }

    /// Borrow the string's bytes.
    pub fn as_slice(&self) -> (r: &[u8])
        ensures
            r@ == self.bytes@,
    {
        self.bytes.as_slice()
    }

    /// Append raw bytes to the string, leaving the encoding label
    /// unchanged.
    pub fn cat(&mut self, buf: &[u8])
        ensures
            final(self).bytes@ == old(self).bytes@ + buf@,
            final(self).encoding == old(self).encoding,
    {
        let ghost orig = self.bytes@;
        let mut work: Vec<u8> = Vec::new();
        core::mem::swap(&mut self.bytes, &mut work);
        let mut i: usize = 0;
        while i < buf.len()
            invariant
                0 <= i <= buf@.len(),
                work@ == orig + buf@.take(i as int),
            decreases buf@.len() - i,
        {
            work.push(*vstd::slice::slice_index_get(buf, i));
            proof {
                assert(work@ =~= orig + buf@.take(i + 1 as int));
            }
            i = i + 1;
        }
        proof {
            assert(orig + buf@.take(buf@.len() as int) =~= orig + buf@);
        }
        core::mem::swap(&mut self.bytes, &mut work);
    }

    /// The string's length in bytes.
    pub fn len(&self) -> (n: usize)
        ensures
            n == self.bytes@.len(),
    {
        self.bytes.len()
    }

    /// Whether the encoding label on this string is UTF-8 or US-ASCII.
    /// The label provides no guarantee that the bytes really are valid
    /// UTF-8.
    pub fn is_utf8_compatible_encoding(&self) -> (b: bool)
        ensures
            b == spec_utf8_compatible(self.encoding),
    {
        match self.encoding {
            Encoding::Utf8 => true,
            Encoding::UsAscii => true,
            _ => false,
        }
    }

    /// Decode the host string as text, replacing whatever is not valid
    /// UTF-8 with the replacement character.  The encoding label is not
    /// consulted: the bytes alone decide.
    pub fn to_string_lossy(&self) -> (r: String)
        ensures
            r@ == lossy_utf8(self.bytes@),
            utf8_decode(self.bytes@) matches Some(s) ==> r@ == s,
    {
        decode_utf8_lossy(&self.bytes)
    }

    /// Decode the host string as text.
    ///
    /// Fails with an encoding error naming the actual encoding when the
    /// label is not UTF-8-compatible, and with an invalid-UTF-8 error when
    /// the label is compatible but the bytes do not decode; succeeds, with
    /// the decoded text, exactly otherwise.
    pub fn to_string(&self) -> (r: Result<String, Error>)
        ensures
            !spec_utf8_compatible(self.encoding) ==> (r matches Err(e)
                && e == (Error::EncodingError { encoding: self.encoding })),
            spec_utf8_compatible(self.encoding) && utf8_decode(self.bytes@) is Some ==> (
                r matches Ok(s) && s@ == utf8_decode(self.bytes@)->Some_0),
            spec_utf8_compatible(self.encoding) && utf8_decode(self.bytes@) is None ==> (
                r matches Err(e) && e == Error::InvalidUtf8),
    {
        if !self.is_utf8_compatible_encoding() {
            return Err(Error::EncodingError { encoding: self.encoding });
        }
        match decode_utf8(&self.bytes) {
            Some(s) => Ok(s),
            None => Err(Error::InvalidUtf8),
        }
    }
}

} // verus!
