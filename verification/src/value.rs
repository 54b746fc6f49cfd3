//! The untyped host value: a handle with a class identity and a kind tag,
//! carrying the model payload for each built-in kind of host object.

use vstd::prelude::*;

verus! {

/// Host class identity of the built-in string class.
pub const CLASS_STRING: u64 = 1;

/// Host class identity of the built-in file class.
pub const CLASS_FILE: u64 = 2;

/// Host class identity of the built-in rational class.
pub const CLASS_RATIONAL: u64 = 3;

/// Host class identity of the built-in execution-context binding class.
pub const CLASS_BINDING: u64 = 4;

/// Host class identity of the built-in integer class.
pub const CLASS_INTEGER: u64 = 5;

/// The encoding label carried by a host string.  The label is only a claim
/// about the bytes; it gives no guarantee that they really are valid text.
#[derive(Clone, Copy, PartialEq, Eq, Structural, Debug)]
pub enum Encoding {
    /// UTF-8.
    Utf8,
    /// US-ASCII, a fully UTF-8-compatible subset.
    UsAscii,
    /// Raw bytes with no text interpretation.
    Binary,
    /// Any other host encoding, named by its registration index.
    Other(u64),
}

/// An interned identifier, named by its registration index.
#[derive(Clone, Copy, PartialEq, Eq, Structural, Debug)]
pub struct Symbol {
    /// The host's interning index for this identifier.
    pub id: u64,
}

/// What a host value is, together with the model payload of that kind.
#[derive(Clone, PartialEq, Eq, Debug)]
pub enum ValueKind {
    /// A host string: bytes plus an encoding label.
    Str { bytes: Vec<u8>, encoding: Encoding },
    /// A host file, named by its descriptor number.
    File { descriptor: u64 },
    /// A host rational number.
    Rational { numerator: i64, denominator: i64 },
    /// An execution-context binding, named by its registration index; the
    /// binding's local variables live in the owning [`crate::binding::Binding`].
    Context { binding_id: u64 },
    /// A foreign object: a wrapped native value.  `class` is the host class
    /// it was wrapped under, `name` the name of the descriptor it was wrapped
    /// against, and `slot` the host-managed storage slot holding the native
    /// value.
    Data { class: u64, name: Vec<u8>, slot: usize },
    /// A host integer.
    Integer { value: i64 },
    /// Any other host object, of the given class.
    Other { class: u64 },
}

/// An untyped reference to a host-managed object.
#[derive(Clone, PartialEq, Eq, Debug)]
pub struct Value {
    /// The kind of object this handle designates.
    pub kind: ValueKind,
}

impl Value {
    /// The host class identity of the object this value designates.
    pub open spec fn spec_class_of(&self) -> u64 {
        match self.kind {
            ValueKind::Str { .. } => CLASS_STRING,
            ValueKind::File { .. } => CLASS_FILE,
            ValueKind::Rational { .. } => CLASS_RATIONAL,
            ValueKind::Context { .. } => CLASS_BINDING,
            ValueKind::Data { class, .. } => class,
            ValueKind::Integer { .. } => CLASS_INTEGER,
            ValueKind::Other { class } => class,
        }
    }

    /// Report the host class identity of the object this value designates.
    pub fn class_of(&self) -> (c: u64)
        ensures
            c == self.spec_class_of(),
    {
        match &self.kind {
            ValueKind::Str { .. } => CLASS_STRING,
            ValueKind::File { .. } => CLASS_FILE,
            ValueKind::Rational { .. } => CLASS_RATIONAL,
            ValueKind::Context { .. } => CLASS_BINDING,
            ValueKind::Data { class, .. } => *class,
            ValueKind::Integer { .. } => CLASS_INTEGER,
            ValueKind::Other { class } => *class,
        }
    }
}

/// Compare two byte strings for equality.
pub fn bytes_eq(a: &Vec<u8>, b: &Vec<u8>) -> (r: bool)
    ensures
        r == (a@ == b@),
{
    if a.len() != b.len() {
        return false;
    }
    let mut i: usize = 0;
    while i < a.len()
        invariant
            0 <= i <= a@.len(),
            a@.len() == b@.len(),
            forall|j: int| 0 <= j < i ==> a@[j] == b@[j],
        decreases a@.len() - i,
    {
        if a[i] != b[i] {
            return false;
        }
        i = i + 1;
    }
    proof {
        assert(a@ =~= b@);
    }
    true
}

/// Copy a byte string.
pub fn clone_bytes(v: &Vec<u8>) -> (r: Vec<u8>)
    ensures
        r@ == v@,
{
    let mut r: Vec<u8> = Vec::new();
    let mut i: usize = 0;
    while i < v.len()
        invariant
            0 <= i <= v@.len(),
            r@ == v@.subrange(0, i as int),
        decreases v@.len() - i,
    {
        r.push(v[i]);
        proof {
            assert(r@ =~= v@.subrange(0, i + 1 as int));
        }
        i = i + 1;
    }
    proof {
        assert(r@ =~= v@);
    }
    r
}

} // verus!
