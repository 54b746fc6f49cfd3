//! Recoverable errors returned to the native caller.
//!
//! Fatal conditions (a collector callback that panics, use off the bound
//! thread) are not represented here: they terminate the process and never
//! reach a result type.

use vstd::prelude::*;
use crate::value::{Encoding, Symbol};

verus! {

/// A recoverable error, returned through a `Result` to the native caller.
#[derive(Clone, PartialEq, Eq, Debug)]
pub enum Error {
    /// The value's host class does not match the expected one.
    TypeError { expected_class: u64, actual_class: u64 },
    /// The value is a foreign object of the right host class, but was
    /// wrapped against a different descriptor; carries the names of the
    /// expected and of the actual descriptor.
    WrongWrappedType { expected_name: Vec<u8>, actual_name: Vec<u8> },
    /// A host string's encoding label is not UTF-8-compatible.
    EncodingError { encoding: Encoding },
    /// A host string labelled UTF-8-compatible whose bytes are not valid
    /// UTF-8.
    InvalidUtf8,
    /// No local variable of the given name exists in the binding.
    NameError { name: Symbol },
}

} // verus!
