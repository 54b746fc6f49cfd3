//! The host's built-in file objects.

use vstd::prelude::*;
use crate::error::Error;
use crate::value::{Value, ValueKind, CLASS_FILE};

verus! {

/// A value known to be one of the host's file objects, named by its
/// descriptor number.
#[derive(Clone, Copy, PartialEq, Eq, Structural, Debug)]
pub struct RFile {
    /// The host file descriptor number.
    pub descriptor: u64,
}

impl RFile {
    /// Return `Some(RFile)` if `val` is a host file, `None` otherwise.
    pub fn from_value(val: Value) -> (r: Option<RFile>)
        ensures
            val.kind matches ValueKind::File { descriptor } ==> r == Some(RFile { descriptor }),
            !(val.kind is File) ==> r is None,
    {
        match val.kind {
            ValueKind::File { descriptor } => Some(RFile { descriptor }),
            _ => None,
        }
    }

    /// Checked conversion: a value that is not a host file fails with a
    /// type-conversion error naming the expected and the actual class.
    pub fn try_convert(val: Value) -> (r: Result<RFile, Error>)
        ensures
            val.kind matches ValueKind::File { descriptor } ==> r == Ok::<RFile, Error>(RFile { descriptor }),
            !(val.kind is File) ==> r == Err::<RFile, Error>(Error::TypeError {
                expected_class: CLASS_FILE,
                actual_class: val.spec_class_of(),
            }),
    {
        let actual_class = val.class_of();
        match val.kind {
            ValueKind::File { descriptor } => Ok(RFile { descriptor }),
            _ => Err(Error::TypeError { expected_class: CLASS_FILE, actual_class }),
        }
    }

    /// Give up the typed view and return the untyped handle.
    pub fn into_value(self) -> (v: Value)
        ensures
            v.kind == (ValueKind::File { descriptor: self.descriptor }),
    {
        Value { kind: ValueKind::File { descriptor: self.descriptor } }
    }
}

} // verus!
