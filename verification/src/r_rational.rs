//! The host's built-in rational numbers.

use vstd::prelude::*;
use crate::error::Error;
use crate::value::{Value, ValueKind, CLASS_RATIONAL};

verus! {

/// A value known to be one of the host's rational numbers.
#[derive(Clone, Copy, PartialEq, Eq, Structural, Debug)]
pub struct RRational {
    /// Numerator.
    pub numerator: i64,
    /// Denominator.
    pub denominator: i64,
}

impl RRational {
    /// Return `Some(RRational)` if `val` is a host rational, `None`
    /// otherwise.
    pub fn from_value(val: Value) -> (r: Option<RRational>)
        ensures
            val.kind matches ValueKind::Rational { numerator, denominator }
                ==> r == Some(RRational { numerator, denominator }),
            !(val.kind is Rational) ==> r is None,
    {
        match val.kind {
            ValueKind::Rational { numerator, denominator } => Some(
                RRational { numerator, denominator },
            ),
            _ => None,
        }
    }

    /// Checked conversion: a value that is not a host rational fails with
    /// a type-conversion error naming the expected and the actual class.
    pub fn try_convert(val: Value) -> (r: Result<RRational, Error>)
        ensures
            val.kind matches ValueKind::Rational { numerator, denominator }
                ==> r == Ok::<RRational, Error>(RRational { numerator, denominator }),
            !(val.kind is Rational) ==> r == Err::<RRational, Error>(Error::TypeError {
                expected_class: CLASS_RATIONAL,
                actual_class: val.spec_class_of(),
            }),
    {
        let actual_class = val.class_of();
        match val.kind {
            ValueKind::Rational { numerator, denominator } => Ok(
                RRational { numerator, denominator },
            ),
            _ => Err(Error::TypeError { expected_class: CLASS_RATIONAL, actual_class }),
        }
    }

    /// Give up the typed view and return the untyped handle.
    pub fn into_value(self) -> (v: Value)
        ensures
            v.kind == (ValueKind::Rational {
                numerator: self.numerator,
                denominator: self.denominator,
            }),
    {
        Value {
            kind: ValueKind::Rational {
                numerator: self.numerator,
                denominator: self.denominator,
            },
        }
    }
}

} // verus!
