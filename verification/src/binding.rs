//! An execution-context binding: the named local variables of one host
//! execution context.
//!
//! Evaluating host code inside the context needs the host interpreter and
//! lives outside this library; the binding itself is the context's local
//! variable table, latest assignment last.

use vstd::prelude::*;
use crate::error::Error;
use crate::value::{Symbol, Value};

verus! {

/// What the named local variable of a context holds: the value of the
/// latest assignment to that name, if any.
pub open spec fn spec_lookup(locals: Seq<(u64, Value)>, name: u64) -> Option<Value>
    decreases locals.len(),
{
    if locals.len() == 0 {
        None
    } else if locals.last().0 == name {
        Some(locals.last().1)
    } else {
        spec_lookup(locals.drop_last(), name)
    }
}

/// Assigning a name binds that name to the new value and leaves every
/// other name unchanged.
pub proof fn lemma_lookup_after_set(locals: Seq<(u64, Value)>, name: u64, val: Value, other: u64)
    ensures
        spec_lookup(locals.push((name, val)), other) == (if other == name {
            Some(val)
        } else {
            spec_lookup(locals, other)
        }),
{
    assert(locals.push((name, val)).drop_last() =~= locals);
}

/// A lookup is decided by the last assignment: with no assignment to
/// `name` at or after position `i`, the lookup sees only the prefix.
proof fn lemma_lookup_prefix(locals: Seq<(u64, Value)>, name: u64, i: int)
    requires
        0 <= i <= locals.len(),
        forall|j: int| i <= j < locals.len() ==> (#[trigger] locals[j]).0 != name,
    ensures
        spec_lookup(locals, name) == spec_lookup(locals.take(i), name),
    decreases locals.len(),
{
    if i < locals.len() {
        assert(locals.last().0 != name);
        assert(forall|j: int| i <= j < locals.drop_last().len()
            ==> (#[trigger] locals.drop_last()[j]).0 != name);
        lemma_lookup_prefix(locals.drop_last(), name, i);
        assert(locals.drop_last().take(i) =~= locals.take(i));
    } else {
        assert(locals.take(i) =~= locals);
    }
}

/// One host execution context's local variables.
#[derive(Clone, PartialEq, Eq, Debug)]
pub struct Binding {
    /// The named locals, in assignment order; a later entry for the same
    /// name shadows an earlier one.
    pub locals: Vec<(u64, Value)>,
}

impl Binding {
    /// Create a binding for a fresh execution context, with no local
    /// variables yet.
    pub fn new() -> (b: Binding)
        ensures
            b.locals@ == Seq::<(u64, Value)>::empty(),
    {
        Binding { locals: Vec::new() }
    }

    /// Get the named local variable from the binding.
    ///
    /// Returns the value of the latest assignment to that name, or a
    /// name error if no local variable of that name exists.
    pub fn local_variable_get(&self, name: Symbol) -> (r: Result<&Value, Error>)
        ensures
            spec_lookup(self.locals@, name.id) matches Some(v) ==> (r matches Ok(got)
                && *got == v),
            spec_lookup(self.locals@, name.id) is None ==> (r matches Err(e)
                && e == (Error::NameError { name })),
    {
        let mut i: usize = self.locals.len();
        while i > 0
            invariant
                0 <= i <= self.locals@.len(),
                forall|j: int| i <= j < self.locals@.len()
                    ==> (#[trigger] self.locals@[j]).0 != name.id,
            decreases i,
        {
            i = i - 1;
            let entry = vstd::slice::slice_index_get(self.locals.as_slice(), i);
            if entry.0 == name.id {
                proof {
                    lemma_lookup_prefix(self.locals@, name.id, i + 1);
                    assert(self.locals@.take(i + 1).last() == self.locals@[i as int]);
                }
                return Ok(&entry.1);
            }
        }
        proof {
            lemma_lookup_prefix(self.locals@, name.id, 0);
            assert(self.locals@.take(0) =~= Seq::<(u64, Value)>::empty());
        }
        Err(Error::NameError { name })
    }

    /// Set the named local variable in the binding: after the call the
    /// name holds `val`, and every other name is unchanged.
    pub fn local_variable_set(&mut self, name: Symbol, val: Value)
        ensures
            final(self).locals@ == old(self).locals@.push((name.id, val)),
            spec_lookup(final(self).locals@, name.id) == Some(val),
            forall|other: u64| other != name.id ==> spec_lookup(final(self).locals@, other)
                == spec_lookup(old(self).locals@, other),
    {
        self.locals.push((name.id, val));
        proof {
            assert forall|other: u64| other != name.id implies spec_lookup(self.locals@, other)
                == spec_lookup(old(self).locals@, other) by {
                lemma_lookup_after_set(old(self).locals@, name.id, val, other);
            }
            lemma_lookup_after_set(old(self).locals@, name.id, val, name.id);
        }
    }
}

} // verus!
