use std::cell::Cell;
use std::collections::HashMap;
use std::rc::Rc;

use magnus::error::Error;
use magnus::typed_data::{
    DataType, DataTypeBuilder, DataTypeFunctions, IsEql, NativeEq, Obj, Store, TypedData,
    FLAG_FREE_IMMEDIATELY, FLAG_FROZEN_SHAREABLE, FLAG_WB_PROTECTED,
};
use magnus::value::{Value, ValueKind};
use magnus::version::ApiVersion;

const HOST_3_1: ApiVersion = ApiVersion { major: 3, minor: 1 };
const PAIR_CLASS: u64 = 100;

#[derive(Clone, Copy, PartialEq, Eq, Debug)]
struct Pair {
    a: i64,
    b: i64,
}

impl DataTypeFunctions for Pair {}

impl TypedData for Pair {
    fn class() -> u64 {
        PAIR_CLASS
    }

    fn data_type() -> DataType {
        DataType::builder::<Pair>(b"pair".to_vec()).build(HOST_3_1)
    }
}

impl NativeEq for Pair {
    fn native_eq(&self, other: &Self) -> bool {
        self == other
    }
}

impl magnus::typed_data::Hash for Pair {
    fn spec_hash(&self) -> u64 {
        (self.a as u64)
            .wrapping_mul(31)
            .wrapping_add(self.b as u64)
            .wrapping_mul(31)
    }

    fn native_hash(&self) -> u64 {
        (self.a as u64)
            .wrapping_mul(31)
            .wrapping_add(self.b as u64)
            .wrapping_mul(31)
    }
}

impl IsEql for Pair {}

/// A second native type that shares Pair's host class but has its own
/// descriptor.
#[derive(Clone, Copy, PartialEq, Eq, Debug)]
struct OtherPair {
    a: i64,
    b: i64,
}

impl DataTypeFunctions for OtherPair {}

impl TypedData for OtherPair {
    fn class() -> u64 {
        PAIR_CLASS
    }

    fn data_type() -> DataType {
        DataType::builder::<OtherPair>(b"other_pair".to_vec()).build(HOST_3_1)
    }
}

#[test]
fn wrap_then_get_round_trips() {
    let mut store: Store<Pair> = Store::new();
    let obj = Obj::wrap(&mut store, Pair { a: 1, b: 2 });
    assert_eq!(*obj.get(&store), Pair { a: 1, b: 2 });
}

#[test]
fn wrap_tags_value_with_class_and_descriptor() {
    let mut store: Store<Pair> = Store::new();
    let obj = Obj::wrap(&mut store, Pair { a: 4, b: 2 });
    let value = obj.into_value();
    match value.kind {
        ValueKind::Data { class, ref name, slot } => {
            assert_eq!(class, PAIR_CLASS);
            assert_eq!(name, b"pair");
            assert_eq!(slot, 0);
        }
        ref other => panic!("expected a foreign-object value, got {:?}", other),
    }
}

#[test]
fn convert_round_trips_through_untyped_value() {
    let mut store: Store<Pair> = Store::new();
    let obj = Obj::wrap(&mut store, Pair { a: 9, b: -9 });
    let value = obj.into_value();
    let back = Obj::<Pair>::try_convert(value, &store).expect("conversion of own value");
    assert_eq!(*back.get(&store), Pair { a: 9, b: -9 });
}

#[test]
fn convert_from_other_descriptor_fails_despite_shared_class() {
    let pair_store: Store<Pair> = Store::new();
    let mut other_store: Store<OtherPair> = Store::new();
    let other = Obj::wrap(&mut other_store, OtherPair { a: 1, b: 2 });
    let value = other.into_value();
    match Obj::<Pair>::try_convert(value, &pair_store) {
        Err(Error::WrongWrappedType { expected_name, actual_name }) => {
            assert_eq!(expected_name, b"pair");
            assert_eq!(actual_name, b"other_pair");
        }
        Err(other) => panic!("expected a wrapping-type error, got {:?}", other),
        Ok(_) => panic!("expected a wrapping-type error, got a handle"),
    }
}

#[test]
fn convert_from_unrelated_class_fails_with_type_error() {
    let store: Store<Pair> = Store::new();
    let value = Value { kind: ValueKind::Integer { value: 3 } };
    match Obj::<Pair>::try_convert(value, &store) {
        Err(Error::TypeError { expected_class, actual_class }) => {
            assert_eq!(expected_class, PAIR_CLASS);
            assert_eq!(actual_class, magnus::value::CLASS_INTEGER);
        }
        Err(other) => panic!("expected a type error, got {:?}", other),
        Ok(_) => panic!("expected a type error, got a handle"),
    }
}

#[test]
fn builder_flags_on_supporting_host() {
    let mut builder: DataTypeBuilder<Pair> = DataTypeBuilder::new(b"flagged".to_vec());
    builder.mark();
    builder.size();
    builder.compact();
    builder.free_immediately();
    builder.wb_protected();
    builder.frozen_shareable();
    let data_type = builder.build(HOST_3_1);
    assert_eq!(data_type.name, b"flagged");
    assert_eq!(
        data_type.flags,
        FLAG_FREE_IMMEDIATELY | FLAG_WB_PROTECTED | FLAG_FROZEN_SHAREABLE
    );
    assert!(data_type.has_mark);
    assert!(data_type.has_size);
    assert!(data_type.has_compact);
}

#[test]
fn builder_omits_version_gated_capabilities_on_old_host() {
    let mut builder: DataTypeBuilder<Pair> = DataTypeBuilder::new(b"old_host".to_vec());
    builder.compact();
    builder.frozen_shareable();
    builder.free_immediately();
    let data_type = builder.build(ApiVersion { major: 2, minor: 6 });
    // Compaction arrived in 2.7 and the frozen-shareable bit in 3.0: on an
    // older host both opt-ins are silently omitted.
    assert!(!data_type.has_compact);
    assert_eq!(data_type.flags, FLAG_FREE_IMMEDIATELY);
    let data_type = DataTypeBuilder::<Pair>::new(b"mid_host".to_vec()).build(ApiVersion {
        major: 2,
        minor: 7,
    });
    assert!(!data_type.has_compact);
    assert_eq!(data_type.flags, 0);
}

#[test]
fn descriptor_name_storage_survives_repeated_build_drop_cycles() {
    for _ in 0..1000 {
        let data_type = DataType::builder::<Pair>(b"cycled".to_vec()).build(HOST_3_1);
        assert_eq!(data_type.name, b"cycled");
        drop(data_type);
    }
}

#[test]
fn equal_pairs_hash_alike() {
    let a = Pair { a: 1, b: 2 };
    let b = Pair { a: 1, b: 2 };
    assert_eq!(
        magnus::typed_data::Hash::hash(&a),
        magnus::typed_data::Hash::hash(&b)
    );
    // A hash within the signed range, not an unsigned truncation: a native
    // hash above i64::MAX reinterprets as a negative number.
    let big = Pair { a: i64::MAX, b: 0 };
    let _ = magnus::typed_data::Hash::hash(&big);
    assert_eq!(magnus::typed_data::hash_to_signed(u64::MAX), -1);
    assert_eq!(magnus::typed_data::hash_to_signed(7), 7);
}

#[test]
fn is_eql_falls_back_to_false_for_unrelated_values() {
    let mut store: Store<Pair> = Store::new();
    let _ = Obj::wrap(&mut store, Pair { a: 1, b: 2 });
    let me = Pair { a: 1, b: 2 };
    let unrelated = Value { kind: ValueKind::Integer { value: 1 } };
    assert!(!me.is_eql(&unrelated, &store));
    let mut other_store: Store<OtherPair> = Store::new();
    let other = Obj::wrap(&mut other_store, OtherPair { a: 1, b: 2 });
    assert!(!me.is_eql(&other.into_value(), &store));
}

fn lookup(
    probe: Pair,
    mapping: &HashMap<i64, Vec<(Value, &'static str)>>,
    store: &Store<Pair>,
) -> Option<&'static str> {
    mapping.get(&magnus::typed_data::Hash::hash(&probe)).and_then(|bucket| {
        bucket
            .iter()
            .find(|(stored, _)| probe.is_eql(stored, store))
            .map(|(_, payload)| *payload)
    })
}

#[test]
fn pair_as_host_mapping_key() {
    // The host mapping keys entries by the derived hash and confirms hits
    // with the derived equality, as a host hash table would.
    let mut store: Store<Pair> = Store::new();
    let key = Obj::wrap(&mut store, Pair { a: 1, b: 2 });
    let mut mapping: HashMap<i64, Vec<(Value, &'static str)>> = HashMap::new();
    let hash = magnus::typed_data::Hash::hash(key.get(&store));
    mapping.entry(hash).or_default().push((key.into_value(), "test value"));

    // A structurally equal but distinct instance finds the stored value.
    assert_eq!(lookup(Pair { a: 1, b: 2 }, &mapping, &store), Some("test value"));
    // A different pair is not found.
    assert_eq!(lookup(Pair { a: 3, b: 4 }, &mapping, &store), None);
}

/// A native type that records how often its free callback ran.
struct Counted {
    frees: Rc<Cell<usize>>,
}

impl DataTypeFunctions for Counted {
    fn free(self) {
        self.frees.set(self.frees.get() + 1);
    }
}

impl TypedData for Counted {
    fn class() -> u64 {
        101
    }

    fn data_type() -> DataType {
        let mut builder = DataType::builder::<Counted>(b"counted".to_vec());
        builder.free_immediately();
        builder.build(HOST_3_1)
    }
}

#[test]
fn collect_slot_frees_exactly_once() {
    let frees = Rc::new(Cell::new(0));
    let mut store: Store<Counted> = Store::new();
    let obj = Obj::wrap(&mut store, Counted { frees: frees.clone() });
    let slot = match &obj.into_value().kind {
        ValueKind::Data { slot, .. } => *slot,
        _ => unreachable!(),
    };
    assert_eq!(frees.get(), 0);
    store.collect_slot(slot);
    assert_eq!(frees.get(), 1);
    // The slot is dead; a later sweep does not free the value again.
    store.sweep(&Vec::new());
    assert_eq!(frees.get(), 1);
}

#[test]
fn sweep_frees_every_unmarked_slot_once() {
    let frees = Rc::new(Cell::new(0));
    let mut store: Store<Counted> = Store::new();
    for _ in 0..3 {
        Obj::wrap(&mut store, Counted { frees: frees.clone() });
    }
    store.sweep(&vec![false, true]);
    // Slots 0 and 2 are unmarked (slot 2 lies beyond the bitmap); only
    // slot 1 survives.
    assert_eq!(frees.get(), 2);
    store.sweep(&Vec::new());
    assert_eq!(frees.get(), 3);
}

/// A native type holding a host reference, which opts out of the mark
/// callback — violating the descriptor's no-references claim.
struct Unmarked {
    host_ref: Option<usize>,
}

impl DataTypeFunctions for Unmarked {}

impl TypedData for Unmarked {
    fn class() -> u64 {
        102
    }

    fn data_type() -> DataType {
        // No mark opt-in: the collector is told there is nothing to trace.
        DataType::builder::<Unmarked>(b"unmarked".to_vec()).build(HOST_3_1)
    }
}

#[test]
fn opting_out_of_mark_while_holding_references_loses_them_to_the_collector() {
    let mut store: Store<Unmarked> = Store::new();
    let referenced = Obj::wrap(&mut store, Unmarked { host_ref: None });
    let referenced_slot = match &referenced.into_value().kind {
        ValueKind::Data { slot, .. } => *slot,
        _ => unreachable!(),
    };
    let root = Obj::wrap(&mut store, Unmarked { host_ref: Some(referenced_slot) });
    let root_slot = match &root.into_value().kind {
        ValueKind::Data { slot, .. } => *slot,
        _ => unreachable!(),
    };

    // A collection pass with only `root` reachable.  The mark phase
    // consults the descriptor: with no mark callback installed, the
    // values it holds references into are never traced.
    let mut marked = vec![false; store.len()];
    marked[root_slot] = true;
    if store.data_type.has_mark {
        // Would trace root's references here; the descriptor says there
        // are none.
        unreachable!("this type opted out of mark");
    }
    store.sweep(&marked);

    // The root survived, still holding its reference — but the referenced
    // slot was collected out from under it: a use-after-collection.
    assert_eq!(store.slots[root_slot].as_ref().unwrap().host_ref, Some(referenced_slot));
    assert!(store.slots[referenced_slot].is_none());
}

#[test]
fn size_slot_uses_builtin_estimate_without_size_callback() {
    let mut store: Store<Pair> = Store::new();
    let obj = Obj::wrap(&mut store, Pair { a: 1, b: 2 });
    let slot = match &obj.into_value().kind {
        ValueKind::Data { slot, .. } => *slot,
        _ => unreachable!(),
    };
    assert_eq!(store.size_slot(slot), std::mem::size_of::<Pair>());
    store.mark_slot(slot);
    store.compact_slot(slot);
}
