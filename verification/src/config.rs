//! The host configuration table, as the build-time probe reads it.
//!
//! The probe asks the installed host runtime to print its configuration
//! as key–value pairs, values separated from keys by a unit separator
//! and pairs from each other by a record separator.  Parsing that byte
//! stream, and looking keys up in the result, is this module; running
//! the host runtime is not.

use vstd::prelude::*;
use crate::value::bytes_eq;
use crate::version::{find_byte, lemma_find_first, spec_find};

verus! {

/// The record separator between key–value pairs.
pub const RECORD_SEP: u8 = 0x1e;

/// The unit separator between a key and its value.
pub const UNIT_SEP: u8 = 0x1f;

/// The raw stream split at each record separator.  An empty stream is one
/// empty record.
pub open spec fn spec_records(s: Seq<u8>) -> Seq<Seq<u8>>
    decreases s.len(),
{
    if s.len() == 0 {
        seq![Seq::<u8>::empty()]
    } else if s.last() == RECORD_SEP {
        spec_records(s.drop_last()).push(Seq::<u8>::empty())
    } else {
        let r = spec_records(s.drop_last());
        r.update(r.len() - 1, r.last().push(s.last()))
    }
}

/// What one record contributes to the table: its key and value, split at
/// the first unit separator.  A record with no separator, or with an
/// empty value, contributes nothing.
pub open spec fn spec_entry(rec: Seq<u8>) -> Option<(Seq<u8>, Seq<u8>)> {
    match spec_find(rec, UNIT_SEP) {
        Some(i) => {
            if rec.skip(i + 1).len() > 0 {
                Some((rec.take(i), rec.skip(i + 1)))
            } else {
                None
            }
        },
        None => None,
    }
}

/// The table a record list produces, in stream order.
pub open spec fn spec_entries_of(records: Seq<Seq<u8>>) -> Seq<(Seq<u8>, Seq<u8>)>
    decreases records.len(),
{
    if records.len() == 0 {
        Seq::empty()
    } else {
        let rest = spec_entries_of(records.drop_last());
        match spec_entry(records.last()) {
            Some(e) => rest.push(e),
            None => rest,
        }
    }
}

/// The byte-sequence views of a list of byte strings.
pub open spec fn spec_views(vs: Seq<Vec<u8>>) -> Seq<Seq<u8>> {
    vs.map_values(|v: Vec<u8>| v@)
}

/// The byte-sequence views of a list of key–value pairs.
pub open spec fn spec_pair_views(es: Seq<(Vec<u8>, Vec<u8>)>) -> Seq<(Seq<u8>, Seq<u8>)> {
    es.map_values(|e: (Vec<u8>, Vec<u8>)| (e.0@, e.1@))
}

/// What a key holds in the table: the value of its last entry, as a
/// later entry for the same key overrides an earlier one.
pub open spec fn spec_lookup(entries: Seq<(Seq<u8>, Seq<u8>)>, key: Seq<u8>) -> Option<Seq<u8>>
    decreases entries.len(),
{
    if entries.len() == 0 {
        None
    } else if entries.last().0 == key {
        Some(entries.last().1)
    } else {
        spec_lookup(entries.drop_last(), key)
    }
}

/// A lookup is decided by the last entry: with no entry for `key` at or
/// after position `i`, the lookup sees only the prefix.
proof fn lemma_lookup_prefix(entries: Seq<(Seq<u8>, Seq<u8>)>, key: Seq<u8>, i: int)
    requires
        0 <= i <= entries.len(),
        forall|j: int| i <= j < entries.len() ==> (#[trigger] entries[j]).0 != key,
    ensures
        spec_lookup(entries, key) == spec_lookup(entries.take(i), key),
    decreases entries.len(),
{
    if i < entries.len() {
        assert(entries.last().0 != key);
        assert(forall|j: int| i <= j < entries.drop_last().len()
            ==> (#[trigger] entries.drop_last()[j]).0 != key);
        lemma_lookup_prefix(entries.drop_last(), key, i);
        assert(entries.drop_last().take(i) =~= entries.take(i));
    } else {
        assert(entries.take(i) =~= entries);
    }
}

/// Copy the byte range `[from, to)` out of a byte string.
fn copy_range(v: &Vec<u8>, from: usize, to: usize) -> (r: Vec<u8>)
    requires
        from <= to <= v@.len(),
    ensures
        r@ == v@.subrange(from as int, to as int),
{
    let mut r: Vec<u8> = Vec::new();
    let mut i: usize = from;
    while i < to
        invariant
            from <= i <= to <= v@.len(),
            r@ == v@.subrange(from as int, i as int),
        decreases to - i,
    {
        r.push(v[i]);
        proof {
            assert(r@ =~= v@.subrange(from as int, i + 1 as int));
        }
        i = i + 1;
    }
    r
}

/// Split the raw configuration stream at each record separator.
fn split_records(raw: &Vec<u8>) -> (records: Vec<Vec<u8>>)
    ensures
        spec_views(records@) == spec_records(raw@),
{
    let mut done: Vec<Vec<u8>> = Vec::new();
    let mut current: Vec<u8> = Vec::new();
    let mut i: usize = 0;
    while i < raw.len()
        invariant
            0 <= i <= raw@.len(),
            spec_views(done@).push(current@) =~= spec_records(raw@.take(i as int)),
        decreases raw@.len() - i,
    {
        let b = raw[i];
        proof {
            assert(raw@.take(i + 1).drop_last() =~= raw@.take(i as int));
            assert(raw@.take(i + 1).last() == raw@[i as int]);
        }
        if b == RECORD_SEP {
            let ghost done_views = spec_views(done@);
            done.push(current);
            current = Vec::new();
            proof {
                assert(spec_views(done@) =~= done_views.push(spec_records(raw@.take(i as int)).last()));
                assert(spec_views(done@).push(current@) =~= spec_records(raw@.take(i + 1)));
            }
        } else {
            let ghost prev = current@;
            current.push(b);
            proof {
                let r = spec_records(raw@.take(i as int));
                assert(spec_views(done@).push(current@) =~= r.update(r.len() - 1, r.last().push(
                    raw@[i as int],
                )));
            }
        }
        i = i + 1;
    }
    proof {
        assert(raw@.take(raw@.len() as int) =~= raw@);
    }
    done.push(current);
    proof {
        assert(spec_views(done@) =~= spec_records(raw@));
    }
    done
}

/// The host configuration table: key–value pairs in stream order, a
/// later pair for the same key overriding an earlier one.
#[derive(Clone, PartialEq, Eq, Debug)]
pub struct RbConfig {
    /// The parsed key–value pairs, in stream order.
    pub entries: Vec<(Vec<u8>, Vec<u8>)>,
}

impl RbConfig {
    /// Parse the raw configuration stream the probe captured.
    pub fn new(raw: &Vec<u8>) -> (c: RbConfig)
        ensures
            spec_pair_views(c.entries@) == spec_entries_of(spec_records(raw@)),
    {
        let records = split_records(raw);
        let ghost views = spec_views(records@);
        let mut entries: Vec<(Vec<u8>, Vec<u8>)> = Vec::new();
        let mut k: usize = 0;
        while k < records.len()
            invariant
                0 <= k <= records@.len(),
                spec_views(records@) == views,
                spec_pair_views(entries@) =~= spec_entries_of(views.take(k as int)),
            decreases records@.len() - k,
        {
            let rec = vstd::slice::slice_index_get(records.as_slice(), k);
            proof {
                assert(views.take(k + 1).drop_last() =~= views.take(k as int));
                assert(views.take(k + 1).last() == views[k as int]);
                assert(views[k as int] == rec@);
            }
            let ghost prev_pairs = spec_pair_views(entries@);
            match find_byte(rec, UNIT_SEP) {
                Some(sep) => {
                    proof {
                        lemma_find_first(rec@, UNIT_SEP);
                        assert(sep < rec.len());
                    }
                    if sep + 1 < rec.len() {
                        let key = copy_range(rec, 0, sep);
                        let val = copy_range(rec, sep + 1, rec.len());
                        proof {
                            assert(key@ =~= rec@.take(sep as int));
                            assert(val@ =~= rec@.skip(sep + 1));
                        }
                        entries.push((key, val));
                        proof {
                            assert(spec_pair_views(entries@) =~= prev_pairs.push(
                                spec_entry(rec@)->Some_0,
                            ));
                        }
                    } else {
                        proof {
                            assert(rec@.skip(sep + 1).len() == 0);
                        }
                    }
                },
                None => {
                },
            }
            k = k + 1;
        }
        proof {
            assert(views.take(views.len() as int) =~= views);
        }
        RbConfig { entries }
    }

    /// Look the key up in the table; a later entry for the same key
    /// overrides an earlier one.  `None` when the configuration does not
    /// name the key.
    pub fn get(&self, key: &Vec<u8>) -> (r: Option<&Vec<u8>>)
        ensures
            r matches Some(v) ==> spec_lookup(spec_pair_views(self.entries@), key@) == Some(v@),
            r is None ==> spec_lookup(spec_pair_views(self.entries@), key@) is None,
    {
        let ghost pairs = spec_pair_views(self.entries@);
        let mut i: usize = self.entries.len();
        while i > 0
            invariant
                0 <= i <= self.entries@.len(),
                pairs == spec_pair_views(self.entries@),
                pairs.len() == self.entries@.len(),
                forall|j: int| i <= j < pairs.len() ==> (#[trigger] pairs[j]).0 != key@,
            decreases i,
        {
            i = i - 1;
            let entry = vstd::slice::slice_index_get(self.entries.as_slice(), i);
            if bytes_eq(&entry.0, key) {
                proof {
                    lemma_lookup_prefix(pairs, key@, i + 1);
                    assert(pairs.take(i + 1).last() == pairs[i as int]);
                }
                return Some(&entry.1);
            }
            proof {
                assert(pairs[i as int].0 != key@);
            }
        }
        proof {
            lemma_lookup_prefix(pairs, key@, 0);
            assert(pairs.take(0) =~= Seq::<(Seq<u8>, Seq<u8>)>::empty());
        }
        None
    }
}

} // verus!
