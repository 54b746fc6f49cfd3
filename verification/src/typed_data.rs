//! The typed foreign-object protocol.
//!
//! A native type describes itself to the host collector with a [`DataType`]
//! record assembled by a [`DataTypeBuilder`]; conforming types implement
//! [`TypedData`] (the capability the type-check logic trusts) and
//! [`DataTypeFunctions`] (the collector callbacks).  Wrapped values live in
//! host-managed storage, modelled by [`Store`], and are designated by typed
//! handles ([`Obj`]) whose construction from an untyped [`Value`] is checked
//! against both the host class and the descriptor identity.

use vstd::prelude::*;
use core::marker::PhantomData;
use crate::error::Error;
use crate::value::{bytes_eq, clone_bytes, Value, ValueKind};
use crate::version::ApiVersion;

verus! {

/// Object flag: the collector may reclaim the value synchronously, without
/// deferring to a finalizer queue.  Safe only if freeing never calls back
/// into the host runtime.
pub const FLAG_FREE_IMMEDIATELY: u64 = 1;

/// Object flag: the native type promises to notify the collector on each
/// mutation that stores a host reference.
pub const FLAG_WB_PROTECTED: u64 = 32;

/// Object flag: the native type permits reads from several mutator contexts
/// once the owning host object is frozen.
pub const FLAG_FROZEN_SHAREABLE: u64 = 2;

/// An immutable record describing one native type to the host collector:
/// its name, its flag bits, and which optional callbacks are installed.
/// The free callback is always installed.
///
/// The name is owned exclusively by this record; dropping the record
/// releases the name's storage, exactly once.
#[derive(Debug)]
pub struct DataType {
    /// Descriptor name, unique per native type.  Arbitrary bytes; it need
    /// not be a valid identifier in any language.
    pub name: Vec<u8>,
    /// The combined object flag bits.
    pub flags: u64,
    /// Whether the mark callback is installed.  When it is not, the
    /// collector is told the type holds no host references to trace.
    pub has_mark: bool,
    /// Whether the size callback is installed.  When it is not, the
    /// collector falls back to a built-in estimate.
    pub has_size: bool,
    /// Whether the compact callback is installed.  It is wired only when
    /// the host runtime version supports compaction.
    pub has_compact: bool,
}

impl DataType {
    /// Create a new [`DataTypeBuilder`].
    ///
    /// `name` should be unique per wrapped type.
    pub fn builder<T: DataTypeFunctions>(name: Vec<u8>) -> (b: DataTypeBuilder<T>)
        ensures
            b == (DataTypeBuilder::<T> {
                name,
                mark: false,
                size: false,
                compact: false,
                free_immediately: false,
                wb_protected: false,
                frozen_shareable: false,
                phantom: PhantomData,
            }),
    {
        DataTypeBuilder::new(name)
    }
}

/// The collector callbacks a native type may supply.  Every method has a
/// default, so a type only overrides what it opts into.
///
/// None of these is permitted to panic: they are reached from the
/// collector through a foreign calling convention whose frames cannot be
/// unwound, so a panic in one of them is a fatal runtime-integrity
/// violation and terminates the process.  Implementations verified here
/// cannot panic at all.
pub trait DataTypeFunctions: Sized {
    /// Called, by ownership, when the host wrapper object is collected.
    /// The default simply drops the value.
    fn free(self) {
    }

    /// Called when the collector marks the wrapper object; a type holding
    /// host references must mark each of them here.  The default does
    /// nothing.
    fn mark(&self) {
    }

    /// Reports the memory size of the value, for collection heuristics
    /// only.  The default reports the size of the type.
    fn size(&self) -> usize {
        core::mem::size_of::<Self>()
    }

    /// Called during a compacting collection; a type holding moveable host
    /// references must update them here.  The default does nothing.
    fn compact(&self) {
    }
}

/// A builder assembling a [`DataType`] from the capabilities a native type
/// opts into.
#[derive(Debug)]
pub struct DataTypeBuilder<T> {
    /// Descriptor name, unique per wrapped type.
    pub name: Vec<u8>,
    /// Install the mark callback.
    pub mark: bool,
    /// Install the size callback.
    pub size: bool,
    /// Install the compact callback (on a host that supports compaction).
    pub compact: bool,
    /// Request the free-immediately flag.
    pub free_immediately: bool,
    /// Request the write-barrier-protected flag.
    pub wb_protected: bool,
    /// Request the frozen-shareable flag.
    pub frozen_shareable: bool,
    /// The native type this descriptor will describe.
    pub phantom: PhantomData<T>,
}

/// The flag bits a builder's opt-ins produce on the given host version.
/// The frozen-shareable bit exists only from host version 3.0 on; on older
/// hosts the opt-in is silently omitted.
pub open spec fn spec_flags(
    free_immediately: bool,
    wb_protected: bool,
    frozen_shareable: bool,
    api: ApiVersion,
) -> u64 {
    (if free_immediately { FLAG_FREE_IMMEDIATELY } else { 0 })
        | (if wb_protected { FLAG_WB_PROTECTED } else { 0 })
        | (if frozen_shareable && api.spec_supports_frozen_shareable() { FLAG_FROZEN_SHAREABLE } else { 0 })
}

impl<T: DataTypeFunctions> DataTypeBuilder<T> {
    /// Create a new builder with no capabilities opted into.
    ///
    /// `name` should be unique per wrapped type.
    pub fn new(name: Vec<u8>) -> (b: Self)
        ensures
            b == (DataTypeBuilder::<T> {
                name,
                mark: false,
                size: false,
                compact: false,
                free_immediately: false,
                wb_protected: false,
                frozen_shareable: false,
                phantom: PhantomData,
            }),
    {
        DataTypeBuilder {
            name,
            mark: false,
            size: false,
            compact: false,
            free_immediately: false,
            wb_protected: false,
            frozen_shareable: false,
            phantom: PhantomData,
        }
    }

    /// Enable the `mark` callback of `T`.
    pub fn mark(&mut self)
        ensures
            *final(self) == (DataTypeBuilder { mark: true, ..*old(self) }),
    {
        self.mark = true;
    }

    /// Enable the `size` callback of `T`.
    pub fn size(&mut self)
        ensures
            *final(self) == (DataTypeBuilder { size: true, ..*old(self) }),
    {
        self.size = true;
    }

    /// Enable the `compact` callback of `T`.
    pub fn compact(&mut self)
        ensures
            *final(self) == (DataTypeBuilder { compact: true, ..*old(self) }),
    {
        self.compact = true;
    }

    /// Enable the free-immediately flag.  Safe as long as freeing a `T`
    /// never calls back into the host runtime.
    pub fn free_immediately(&mut self)
        ensures
            *final(self) == (DataTypeBuilder { free_immediately: true, ..*old(self) }),
    {
        self.free_immediately = true;
    }

    /// Enable the write-barrier-protected flag.  A narrow, rarely safe
    /// opt-in: the type must notify the collector on every stored host
    /// reference.
    pub fn wb_protected(&mut self)
        ensures
            *final(self) == (DataTypeBuilder { wb_protected: true, ..*old(self) }),
    {
        self.wb_protected = true;
    }

    /// Enable the frozen-shareable flag.  Set this only if `T` is safe to
    /// read from several threads once the host wrapper object is frozen.
    pub fn frozen_shareable(&mut self)
        ensures
            *final(self) == (DataTypeBuilder { frozen_shareable: true, ..*old(self) }),
    {
        self.frozen_shareable = true;
    }

    /// Consume the builder and create the immutable [`DataType`] for the
    /// given host version.
    ///
    /// The free callback is always installed; the compact callback only
    /// when both requested and supported by the host version; the
    /// frozen-shareable flag bit only from host version 3.0 on.
    pub fn build(self, api: ApiVersion) -> (d: DataType)
        ensures
            d.name@ == self.name@,
            d.flags == spec_flags(self.free_immediately, self.wb_protected, self.frozen_shareable, api),
            d.has_mark == self.mark,
            d.has_size == self.size,
            d.has_compact == (self.compact && api.spec_supports_compaction()),
    {
        let shareable = self.frozen_shareable && api.supports_frozen_shareable();
        let flags: u64 = (if self.free_immediately { FLAG_FREE_IMMEDIATELY } else { 0 })
            | (if self.wb_protected { FLAG_WB_PROTECTED } else { 0 })
            | (if shareable { FLAG_FROZEN_SHAREABLE } else { 0 });
        DataType {
            name: self.name,
            flags,
            has_mark: self.mark,
            has_size: self.size,
            has_compact: self.compact && api.supports_compaction(),
        }
    }
}

/// The mathematical content of a [`DataType`] record: what the descriptor
/// says, with the name as a byte sequence.
#[verifier::ext_equal]
pub struct DescriptorModel {
    /// Descriptor name.
    pub name: Seq<u8>,
    /// Combined object flag bits.
    pub flags: u64,
    /// Mark callback installed.
    pub has_mark: bool,
    /// Size callback installed.
    pub has_size: bool,
    /// Compact callback installed.
    pub has_compact: bool,
}

impl View for DataType {
    type V = DescriptorModel;

    open spec fn view(&self) -> DescriptorModel {
        DescriptorModel {
            name: self.name@,
            flags: self.flags,
            has_mark: self.has_mark,
            has_size: self.has_size,
            has_compact: self.has_compact,
        }
    }
}


/// The capability a native type must satisfy to be collector-visible: a
/// host class identity and a descriptor supplier.
///
/// The protocol trusts, without rechecking, that both methods return the
/// same value every time they are called for a given type, and that the
/// descriptor name is unique per native type: two distinct implementing
/// types must never report descriptors with the same name.  An
/// implementation is an attestation of that invariant, exactly as an
/// unchecked implementation of a low-level wrapping interface would be;
/// [`Store::new`] captures the reported class and descriptor once, at
/// registration time, and every later check goes against that captured
/// record.
pub trait TypedData: Sized {
    /// The host class this type's wrapper objects belong to.
    fn class() -> u64;

    /// The descriptor describing this type to the collector, typically
    /// assembled with a [`DataTypeBuilder`].
    fn data_type() -> DataType;
}

/// Host-managed storage for wrapped native values of one type: the slots
/// the collector owns, and the class and descriptor they were registered
/// under.
///
/// The host runtime is the sole mutator of each slot's liveness; native
/// code reaches a slot's value only by borrowing it through [`Obj::get`]
/// for the duration of a call.
pub struct Store<T> {
    /// The host class captured at registration.
    pub class: u64,
    /// The descriptor captured at registration.
    pub data_type: DataType,
    /// The storage slots; a collected slot holds `None`.
    pub slots: Vec<Option<T>>,
}

/// A host object reference annotated at the type level with the native
/// type it wraps.  The tag is a static claim, checked dynamically on
/// every conversion from an untyped [`Value`] and never re-checked
/// afterwards.
pub struct Obj<T> {
    /// The untyped handle: a foreign-object value carrying the class, the
    /// descriptor name and the storage slot it was wrapped under.
    pub raw: Value,
    /// The native type this handle claims to wrap.
    pub phantom: PhantomData<T>,
}

impl<T: TypedData> Store<T> {
    /// The storage slots.
    pub open spec fn spec_slots(&self) -> Seq<Option<T>> {
        self.slots@
    }

    /// Slot `i` exists and has not been collected.
    pub open spec fn slot_live(&self, i: int) -> bool {
        0 <= i < self.slots@.len() && self.slots@[i] is Some
    }

    /// The native value in live slot `i`.
    pub open spec fn value_at(&self, i: int) -> T
        recommends
            self.slot_live(i),
    {
        self.slots@[i]->0
    }

    /// The value `v` passes the host-class stage of this store's checked
    /// conversion: it is a foreign object of the registered class.
    pub open spec fn spec_class_matches(&self, v: Value) -> bool {
        v.kind is Data && v.kind->Data_class == self.class
    }

    /// The value `v` passes both stages of this store's checked
    /// conversion: a foreign object of the registered class, wrapped
    /// against the registered descriptor.
    pub open spec fn spec_accepts(&self, v: Value) -> bool {
        self.spec_class_matches(v) && v.kind->Data_name@ == self.data_type@.name
    }

    /// Register `T` with the collector: capture the class and descriptor
    /// it reports, once, and create its empty storage.
    pub fn new() -> (s: Self)
        ensures
            s.spec_slots() == Seq::<Option<T>>::empty(),
    {
        Store { class: T::class(), data_type: T::data_type(), slots: Vec::new() }
    }

    /// The number of slots, live or collected.
    pub fn len(&self) -> (n: usize)
        ensures
            n == self.spec_slots().len(),
    {
        self.slots.len()
    }
}

impl<T: TypedData> Obj<T> {
    /// The handle's tags match the store's registration: a foreign-object
    /// value of the registered class, carrying the registered descriptor
    /// name.
    pub open spec fn wf(&self, store: &Store<T>) -> bool {
        store.spec_accepts(self.raw)
    }

    /// The storage slot this handle designates.
    pub open spec fn spec_slot(&self) -> int {
        self.raw.kind->Data_slot as int
    }

    /// Wrap the native value `data` in a host object: move it into a
    /// fresh slot of the host-managed store and return the typed handle
    /// to it.
    pub fn wrap(store: &mut Store<T>, data: T) -> (obj: Obj<T>)
        ensures
            final(store).class == old(store).class,
            final(store).data_type == old(store).data_type,
            final(store).spec_slots() == old(store).spec_slots().push(Some(data)),
            obj.wf(final(store)),
            obj.spec_slot() == old(store).spec_slots().len() as int,
            final(store).slot_live(obj.spec_slot()),
            final(store).value_at(obj.spec_slot()) == data,
    {
        let slot = store.slots.len();
        store.slots.push(Some(data));
        let name = clone_bytes(&store.data_type.name);
        Obj {
            raw: Value { kind: ValueKind::Data { class: store.class, name, slot } },
            phantom: PhantomData,
        }
    }

    /// Borrow the native value this handle wraps, for the duration of the
    /// call.  The slot must still be live: the collector may free or
    /// relocate it between calls, so the reference must not be retained.
    pub fn get<'a>(&self, store: &'a Store<T>) -> (r: &'a T)
        requires
            self.raw.kind is Data,
            store.slot_live(self.spec_slot()),
        ensures
            *r == store.value_at(self.spec_slot()),
    {
        let slot = match &self.raw.kind {
            ValueKind::Data { slot, .. } => *slot,
            _ => unreached(),
        };
        match vstd::slice::slice_index_get(store.slots.as_slice(), slot) {
            Some(v) => v,
            None => unreached(),
        }
    }

    /// Give up the typed view and return the untyped handle.
    pub fn into_value(self) -> (v: Value)
        ensures
            v == self.raw,
    {
        self.raw
    }

    /// Checked conversion from an untyped value.
    ///
    /// First the host-class stage: a value that is not a foreign object
    /// of the registered class fails with a type-conversion error naming
    /// the expected and the actual class.  On a match, the value's
    /// descriptor must still equal the registered descriptor — a
    /// same-class object wrapped against a different native type fails
    /// with a wrapping-type error naming the expected and the actual
    /// descriptor — before the typed handle is returned.
    pub fn try_convert(val: Value, store: &Store<T>) -> (r: Result<Obj<T>, Error>)
        ensures
            store.spec_accepts(val) ==> (r matches Ok(obj) && obj.raw == val),
            !store.spec_class_matches(val) ==> (r matches Err(e) && e == (Error::TypeError {
                expected_class: store.class,
                actual_class: val.spec_class_of(),
            })),
            store.spec_class_matches(val) && !store.spec_accepts(val) ==> (r matches Err(e)
                && e matches Error::WrongWrappedType { expected_name, actual_name }
                && expected_name@ == store.data_type@.name
                && actual_name@ == val.kind->Data_name@),
    {
        let class_ok = match &val.kind {
            ValueKind::Data { class, .. } => *class == store.class,
            _ => false,
        };
        if !class_ok {
            let actual_class = val.class_of();
            return Err(Error::TypeError { expected_class: store.class, actual_class });
        }
        match val.kind {
            ValueKind::Data { class, name, slot } => {
                if bytes_eq(&name, &store.data_type.name) {
                    Ok(Obj {
                        raw: Value { kind: ValueKind::Data { class, name, slot } },
                        phantom: PhantomData,
                    })
                } else {
                    let expected_name = clone_bytes(&store.data_type.name);
                    Err(Error::WrongWrappedType { expected_name, actual_name: name })
                }
            },
            _ => unreached(),
        }
    }
}

/// A handle created by a wrap reads back as the value that was wrapped:
/// in the store state `wrap` leaves behind, the handle it returned
/// designates a live slot holding exactly the wrapped value.
pub proof fn lemma_wrap_get_round_trip<T: TypedData>(
    pre: Store<T>,
    post: Store<T>,
    obj: Obj<T>,
    data: T,
)
    requires
        post.spec_slots() == pre.spec_slots().push(Some(data)),
        obj.spec_slot() == pre.spec_slots().len() as int,
    ensures
        post.slot_live(obj.spec_slot()),
        post.value_at(obj.spec_slot()) == data,
{
}

/// Converting a handle that wraps one native type into a handle of
/// another native type with a distinct descriptor always fails: even when
/// the two types share the same host class, the descriptor stage of the
/// checked conversion rejects the value.
pub proof fn lemma_convert_distinct_descriptor_fails<T: TypedData, U: TypedData>(
    t_store: Store<T>,
    u_store: Store<U>,
    v: Value,
)
    requires
        t_store.data_type@.name != u_store.data_type@.name,
        u_store.spec_accepts(v),
    ensures
        !t_store.spec_accepts(v),
{
}

impl<T: TypedData + DataTypeFunctions> Store<T> {
    /// The collector's free path for one live slot: take the native value
    /// out of the slot, by ownership, and hand it to `T`'s free callback.
    /// The slot is dead afterwards, so the value is freed exactly once;
    /// every other slot is untouched.
    pub fn collect_slot(&mut self, i: usize)
        requires
            old(self).slot_live(i as int),
        ensures
            final(self).class == old(self).class,
            final(self).data_type == old(self).data_type,
            final(self).spec_slots() == old(self).spec_slots().update(i as int, None),
    {
        let v = self.slots.remove(i);
        self.slots.insert(i, None);
        proof {
            assert(self.slots@ =~= old(self).slots@.update(i as int, None));
        }
        match v {
            Some(t) => t.free(),
            None => (),
        }
    }

    /// The collector's mark path for one live slot: invoke the native
    /// mark callback exactly when the descriptor installed one.  A type
    /// that opted out is never traced; if it holds host references
    /// anyway, the collector will reclaim what they point to.
    pub fn mark_slot(&self, i: usize)
        requires
            self.slot_live(i as int),
    {
        if self.data_type.has_mark {
            match vstd::slice::slice_index_get(self.slots.as_slice(), i) {
                Some(t) => t.mark(),
                None => (),
            }
        }
    }

    /// The collector's size query for one live slot: the native size
    /// callback when the descriptor installed one, the built-in estimate
    /// (the size of the native type) otherwise.
    pub fn size_slot(&self, i: usize) -> (n: usize)
        requires
            self.slot_live(i as int),
        ensures
            !self.data_type@.has_size ==> n == vstd::layout::size_of::<T>(),
    {
        if self.data_type.has_size {
            match vstd::slice::slice_index_get(self.slots.as_slice(), i) {
                Some(t) => t.size(),
                None => unreached(),
            }
        } else {
            core::mem::size_of::<T>()
        }
    }

    /// The collector's compaction path for one live slot: invoke the
    /// native compact callback exactly when the descriptor installed one.
    pub fn compact_slot(&self, i: usize)
        requires
            self.slot_live(i as int),
    {
        if self.data_type.has_compact {
            match vstd::slice::slice_index_get(self.slots.as_slice(), i) {
                Some(t) => t.compact(),
                None => (),
            }
        }
    }

    /// One sweep of the collector over this store: every slot whose bit
    /// in `marked` is unset is collected, its value freed through `T`'s
    /// free callback exactly once.  Slots beyond `marked`'s length count
    /// as unmarked.  A slot survives the sweep if and only if it was live
    /// and marked, and a surviving slot keeps its value.
    pub fn sweep(&mut self, marked: &Vec<bool>)
        ensures
            final(self).class == old(self).class,
            final(self).data_type == old(self).data_type,
            final(self).spec_slots().len() == old(self).spec_slots().len(),
            forall|j: int| 0 <= j < old(self).spec_slots().len() && spec_marked(marked@, j)
                ==> final(self).spec_slots()[j] == old(self).spec_slots()[j],
            forall|j: int| 0 <= j < old(self).spec_slots().len() && !spec_marked(marked@, j)
                ==> final(self).spec_slots()[j] is None,
    {
        let mut work: Vec<Option<T>> = Vec::new();
        core::mem::swap(&mut self.slots, &mut work);
        let ghost orig = work@;
        let mut i: usize = 0;
        while i < work.len()
            invariant
                work@.len() == orig.len(),
                0 <= i <= work@.len(),
                forall|j: int| 0 <= j < i && spec_marked(marked@, j) ==> work@[j] == orig[j],
                forall|j: int| 0 <= j < i && !spec_marked(marked@, j) ==> work@[j] is None,
                forall|j: int| i <= j < work@.len() ==> work@[j] == orig[j],
            decreases work@.len() - i,
        {
            let keep = i < marked.len() && marked[i];
            if !keep {
                let ghost prev = work@;
                let v = work.remove(i);
                work.insert(i, None);
                proof {
                    assert(work@ =~= prev.update(i as int, None));
                }
                match v {
                    Some(t) => t.free(),
                    None => (),
                }
            }
            i = i + 1;
        }
        core::mem::swap(&mut self.slots, &mut work);
    }
}

/// The collector marked slot `j`: the mark bitmap covers it and its bit
/// is set.
pub open spec fn spec_marked(marked: Seq<bool>, j: int) -> bool {
    0 <= j < marked.len() && marked[j]
}

/// Structural equality a native type can decide for itself.
pub trait NativeEq: Sized {
    /// Decide whether `self` and `other` are equal values.
    fn native_eq(&self, other: &Self) -> (b: bool)
        ensures
            b == (self == other),
    ;
}

/// What the derived host equality method reports: `v` designates a live
/// foreign object of the store's registered class and descriptor whose
/// native value equals `x`.
pub open spec fn spec_is_eql<T: TypedData>(x: T, v: Value, s: Store<T>) -> bool {
    &&& s.spec_accepts(v)
    &&& s.slot_live(v.kind->Data_slot as int)
    &&& s.value_at(v.kind->Data_slot as int) == x
}

/// A host-compatible equality method, derived from [`NativeEq`].
///
/// Host equality protocols must tolerate comparison against a value of
/// any other type without erroring, so the method attempts the checked
/// conversion of its argument and falls back to "not equal" — never an
/// error — when the argument is not a live value of the same native
/// type.
pub trait IsEql: TypedData + NativeEq {
    /// Compare against an arbitrary untyped host value.
    fn is_eql(&self, other: &Value, store: &Store<Self>) -> (b: bool)
        ensures
            b == spec_is_eql::<Self>(*self, *other, *store),
    {
        match &other.kind {
            ValueKind::Data { class, name, slot } => {
                if *class == store.class && bytes_eq(name, &store.data_type.name)
                    && *slot < store.slots.len() {
                    match vstd::slice::slice_index_get(store.slots.as_slice(), *slot) {
                        Some(v) => self.native_eq(v),
                        None => false,
                    }
                } else {
                    false
                }
            },
            _ => false,
        }
    }
}

/// Carry an unsigned native hash into the signed 64-bit range the host's
/// integer representation guarantees, by two's-complement
/// reinterpretation rather than unsigned truncation.
pub fn hash_to_signed(h: u64) -> (r: i64)
    ensures
        r == h as i64,
{
    #[verifier::truncate]
    (h as i64)
}

/// A host-compatible hash method, derived from a native type's own 64-bit
/// hash.
pub trait Hash {
    /// The native hash of this value, a function of the value alone.
    spec fn spec_hash(&self) -> u64;

    /// Compute the native hash.
    fn native_hash(&self) -> (h: u64)
        ensures
            h == self.spec_hash(),
    ;

    /// The hash as the host sees it: the native hash carried into the
    /// signed 64-bit range.
    fn hash(&self) -> (r: i64)
        ensures
            r == self.spec_hash() as i64,
    {
        hash_to_signed(self.native_hash())
    }
}

/// Native values that compare equal hash to the same signed integer;
/// unequal values are not required to differ.
pub proof fn lemma_equal_values_hash_equal<T: Hash>(a: T, b: T)
    requires
        a == b,
    ensures
        a.spec_hash() as i64 == b.spec_hash() as i64,
{
}

/// The derived host equality is false — it does not error — whenever the
/// compared value is not acceptable to the store's checked conversion,
/// in particular for every host value of an unrelated type.
pub proof fn lemma_is_eql_unrelated_type_false<T: TypedData>(x: T, v: Value, s: Store<T>)
    requires
        !s.spec_accepts(v),
    ensures
        !spec_is_eql::<T>(x, v, s),
{
}

} // verus!
