use vstd::prelude::*;

use crate::codec::decode_outcome;
use crate::codec::Codec;
use crate::error::StdError;
use cosmwasm_std::testing::MockStorage;

verus! {

// ---------------------------------------------------------------------------
// The raw store boundary.
//
// The raw store is an external collaborator: a flat byte-keyed map with
// `get` and `set`. It is specified here as a pair of traits whose contracts
// speak of an abstract `contents` map from key bytes to value bytes, and the
// in-memory store that the host environment supplies is wired to those
// contracts through trusted wrappers below.
// ---------------------------------------------------------------------------

/// Read-only access to a raw byte-keyed store.
pub trait ReadonlyStorage {
    /// The abstract contents of the store: a map from key bytes to the value
    /// bytes stored under them.
    spec fn contents(&self) -> Map<Seq<u8>, Seq<u8>>;

    /// Look the key up; `None` exactly when the key is absent.
    fn get(&self, key: &[u8]) -> (r: Option<Vec<u8>>)
        ensures
            r is Some <==> self.contents().dom().contains(key@),
            r matches Some(v) ==> v@ == self.contents()[key@],
    ;
}

/// Read-write access to a raw byte-keyed store.
///
/// The store does not support empty values (the host's in-memory store
/// refuses them), so `set` asks for a non-empty value; every encoding the
/// codec produces is non-empty.
pub trait Storage: ReadonlyStorage {
    /// Store the value bytes under the key, replacing any previous value.
    fn set(&mut self, key: &[u8], value: &[u8])
        requires
            value@.len() > 0,
        ensures
            final(self).contents() == old(self).contents().insert(key@, value@),
    ;
}

/// The host-supplied in-memory store, declared so that it can stand in
/// signatures; its values are opaque here.
#[verifier::external_type_specification]
#[verifier::external_body]
pub struct ExMockStorage(MockStorage);

/// The contents of the host-supplied in-memory store.
pub uninterp spec fn mock_contents(s: MockStorage) -> Map<Seq<u8>, Seq<u8>>;

/// Relies on `MockStorage::get`: it returns a clone of the bytes stored
/// under the key, or `None` when the key is absent.
#[verifier::external_body]
fn mock_get(storage: &MockStorage, key: &[u8]) -> (r: Option<Vec<u8>>)
    ensures
        r is Some <==> mock_contents(*storage).dom().contains(key@),
        r matches Some(v) ==> v@ == mock_contents(*storage)[key@],
{
    cosmwasm_std::Storage::get(storage, key)
}

/// Relies on `MockStorage::set`: it inserts the key/value pair into the
/// backing map, replacing any previous value. It panics on an empty value,
/// which the `requires` excludes.
#[verifier::external_body]
fn mock_set(storage: &mut MockStorage, key: &[u8], value: &[u8])
    requires
        value@.len() > 0,
    ensures
        mock_contents(*final(storage)) == mock_contents(*old(storage)).insert(key@, value@),
{
    cosmwasm_std::Storage::set(storage, key, value)
}

impl ReadonlyStorage for MockStorage {
    closed spec fn contents(&self) -> Map<Seq<u8>, Seq<u8>> {
        mock_contents(*self)
    }

    fn get(&self, key: &[u8]) -> (r: Option<Vec<u8>>) {
        mock_get(self, key)
    }
}

impl Storage for MockStorage {
    fn set(&mut self, key: &[u8], value: &[u8]) {
        mock_set(self, key, value)
    }
}

// ---------------------------------------------------------------------------
// The save and load primitives.
// ---------------------------------------------------------------------------

/// The textual rendering of a key used in `NotFound` diagnostics.
pub uninterp spec fn key_display(key: Seq<u8>) -> Seq<char>;

/// Relies on `String::from_utf8_lossy`: the rendering depends on the key
/// bytes alone.
#[verifier::external_body]
fn render_key_not_found(key: &[u8]) -> (r: String)
    ensures
        r@ == key_display(key@),
{
    let key_lossy = String::from_utf8_lossy(key);
    format!("Key '{}' not found in storage", key_lossy)
}

/// The error reported when a key is absent at load time.
fn key_not_found(key: &[u8]) -> (r: StdError)
    ensures
        r matches StdError::NotFound { kind } && kind@ == key_display(key@),
{
    let kind = render_key_not_found(key);
    StdError::NotFound { kind }
}

/// What a completed save leaves behind: on success the store maps the key to
/// the value's encoding and nothing else changed; on an encoding failure the
/// store is untouched and the error says so.
pub open spec fn save_outcome<T: Codec>(
    m0: Map<Seq<u8>, Seq<u8>>,
    m1: Map<Seq<u8>, Seq<u8>>,
    k: Seq<u8>,
    v: T::V,
    r: Result<(), StdError>,
) -> bool {
    &&& (r is Ok <==> T::enc_ok_of(v))
    &&& (T::enc_ok_of(v) ==> m1 == m0.insert(k, T::enc_of(v)))
    &&& (!T::enc_ok_of(v) ==> m1 == m0)
    &&& (r matches Err(e) ==> e is SerializeErr)
}

/// What a load returns: `NotFound` (with the key's rendering) exactly when
/// the key is absent; otherwise whatever decoding the stored bytes gives.
pub open spec fn load_outcome<T: Codec>(
    m: Map<Seq<u8>, Seq<u8>>,
    k: Seq<u8>,
    r: Result<T, StdError>,
) -> bool {
    &&& (!m.dom().contains(k) ==> (r matches Err(e) && e matches StdError::NotFound { kind }
        && kind@ == key_display(k)))
    &&& (m.dom().contains(k) ==> decode_outcome::<T>(m[k], r))
}

/// Encode the value and store it under the key. The store is written exactly
/// when encoding succeeds; an encoding failure leaves it untouched.
pub fn save<T: Codec, S: Storage>(storage: &mut S, key: &[u8], data: &T) -> (r: Result<
    (),
    StdError,
>)
    ensures
        save_outcome::<T>(old(storage).contents(), final(storage).contents(), key@, data@, r),
{
    match data.encode() {
        Ok(bin_data) => {
            storage.set(key, bin_data.as_slice());
            Ok(())
        },
        Err(e) => Err(e),
    }
}

/// Fetch the bytes under the key and decode them. Fails with `NotFound` when
/// the key is absent, and propagates decode failures.
pub fn load<T: Codec, S: ReadonlyStorage>(storage: &S, key: &[u8]) -> (r: Result<T, StdError>)
    ensures
        load_outcome::<T>(storage.contents(), key@, r),
{
    match storage.get(key) {
        None => Err(key_not_found(key)),
        Some(bytes) => T::decode(bytes.as_slice()),
    }
}

// ---------------------------------------------------------------------------
// Key resolution and capability dispatch.
//
// A type reaches the primitives above through three independent
// capabilities: how its key is obtained (`StaticKey` or `DynamicKey`), what
// grants it storage eligibility (`Store`), and what value is actually
// written (`AsTargetRef`). The blanket implementations below give every
// codec-eligible type the whole static-keyed and dynamic-keyed surface with
// no per-type glue.
// ---------------------------------------------------------------------------

/// A view of a value as the target type actually persisted. Most types store
/// themselves; an operation builder stores the value it carries.
pub trait AsTargetRef<Target> {
    /// The target value this stands for.
    spec fn spec_target(&self) -> Target;

    fn as_target(&self) -> (r: &Target)
        ensures
            *r == self.spec_target(),
    ;
}

/// The storage capability marker: "Self may be persisted with payload type
/// `Target`". Purely a dispatch-enabling fact; it has no members.
pub trait Store<Target> {

}

/// A compile-time-fixed key, one slot per type. The key brands the type's
/// storage slot: two types sharing a store must never use the same constant.
pub trait StaticKey {
    /// The type's fixed key.
    spec fn spec_key() -> Seq<u8>;

    fn key() -> (r: Vec<u8>)
        ensures
            r@ == Self::spec_key(),
    ;
}

/// A runtime-computed key, one slot per type per instance (typically an
/// identifier's canonical byte representation).
pub trait DynamicKey {
    /// The instance's computed key.
    spec fn spec_key(&self) -> Seq<u8>;

    fn key(&self) -> (r: &[u8])
        ensures
            r@ == self.spec_key(),
    ;
}

/// Every codec-eligible type may store itself.
impl<T: Codec> Store<T> for T {

}

/// Every self-storing type is its own persistence target.
impl<T: Store<T>> AsTargetRef<T> for T {
    open spec fn spec_target(&self) -> T {
        *self
    }

    fn as_target(&self) -> (r: &T) {
        self
    }
}

/// Save under the type's fixed key.
pub trait StaticSave<Target: Codec>: StaticKey + AsTargetRef<Target> {
    fn save<S: Storage>(&self, storage: &mut S) -> (r: Result<(), StdError>)
        ensures
            save_outcome::<Target>(
                old(storage).contents(),
                final(storage).contents(),
                Self::spec_key(),
                self.spec_target()@,
                r,
            ),
    ;
}

/// Save under the instance's computed key.
pub trait DynamicSave<Target: Codec>: DynamicKey + AsTargetRef<Target> {
    fn save<S: Storage>(&self, storage: &mut S) -> (r: Result<(), StdError>)
        ensures
            save_outcome::<Target>(
                old(storage).contents(),
                final(storage).contents(),
                self.spec_key(),
                self.spec_target()@,
                r,
            ),
    ;
}

/// Load from the type's fixed key.
pub trait StaticLoad<Target: Codec>: StaticKey {
    fn load<S: ReadonlyStorage>(storage: &S) -> (r: Result<Target, StdError>)
        ensures
            load_outcome::<Target>(storage.contents(), Self::spec_key(), r),
    ;
}

/// Load from the instance's computed key.
pub trait DynamicLoad<Target: Codec>: DynamicKey {
    fn load<S: ReadonlyStorage>(&self, storage: &S) -> (r: Result<Target, StdError>)
        ensures
            load_outcome::<Target>(storage.contents(), self.spec_key(), r),
    ;
}

impl<T, Target: Codec> StaticSave<Target> for T where
    T: Store<Target> + StaticKey + AsTargetRef<Target>,
 {
    fn save<S: Storage>(&self, storage: &mut S) -> (r: Result<(), StdError>) {
        save(storage, T::key().as_slice(), self.as_target())
    }
}

impl<T, Target: Codec> DynamicSave<Target> for T where
    T: Store<Target> + DynamicKey + AsTargetRef<Target>,
 {
    fn save<S: Storage>(&self, storage: &mut S) -> (r: Result<(), StdError>) {
        save(storage, self.key(), self.as_target())
    }
}

impl<T, Target: Codec> StaticLoad<Target> for T where T: Store<Target> + StaticKey {
    fn load<S: ReadonlyStorage>(storage: &S) -> (r: Result<Target, StdError>) {
        load(storage, T::key().as_slice())
    }
}

impl<T, Target: Codec> DynamicLoad<Target> for T where T: Store<Target> + DynamicKey {
    fn load<S: ReadonlyStorage>(&self, storage: &S) -> (r: Result<Target, StdError>) {
        load(storage, self.key())
    }
}

/// What an update leaves behind: it aborts, writing nothing, when the load
/// step fails, and otherwise stores the encoding of a value the mutation may
/// return for the loaded one. When the slot held the canonical encoding of
/// some value, the loaded value is pinned to exactly that value; and when,
/// in addition, every value the mutation can return encodes, success is
/// owed.
pub open spec fn update_outcome<Target: Codec, F: FnOnce(Target) -> Target>(
    f: F,
    m0: Map<Seq<u8>, Seq<u8>>,
    m1: Map<Seq<u8>, Seq<u8>>,
    k: Seq<u8>,
    r: Result<(), StdError>,
) -> bool {
    &&& (!m0.dom().contains(k) ==> (r matches Err(e) && e is NotFound))
    &&& (r is Err ==> m1 == m0)
    &&& ((m0.dom().contains(k) && (exists|w: Target::V|
        Target::enc_ok_of(w) && #[trigger] Target::enc_of(w) == m0[k]) && (forall|
        va: Target,
        v1: Target,
    |
        #[trigger] call_ensures(f, (va,), v1) ==> Target::enc_ok_of(v1@))) ==> r is Ok)
    &&& (r is Ok ==> exists|v0: Target, v1: Target|
        {
            &&& (forall|w: Target::V| #![trigger Target::enc_of(w)]
                Target::enc_ok_of(w) && Target::enc_of(w) == m0[k] ==> v0@ == w)
            &&& #[trigger] call_ensures(f, (v0,), v1)
            &&& Target::enc_ok_of(v1@)
            &&& m1 == m0.insert(k, Target::enc_of(v1@))
        })
}

/// Load the statically-keyed value, apply the mutation, save the result.
///
/// Not atomic: correctness relies on the surrounding execution model
/// guaranteeing that nothing else touches the store between the load and
/// the save.
pub trait StaticUpdate<Target: Codec>: StaticKey {
    fn update<S: Storage, F: FnOnce(Target) -> Target>(f: F, storage: &mut S) -> (r: Result<
        (),
        StdError,
    >)
        requires
            forall|v: Target| #[trigger] call_requires(f, (v,)),
        ensures
            update_outcome::<Target, F>(
                f,
                old(storage).contents(),
                final(storage).contents(),
                Self::spec_key(),
                r,
            ),
    ;
}

impl<T: Codec + StaticKey> StaticUpdate<T> for T {
    fn update<S: Storage, F: FnOnce(T) -> T>(f: F, storage: &mut S) -> (r: Result<(), StdError>) {
        let current = match <T as StaticLoad<T>>::load(storage) {
            Ok(v) => v,
            Err(e) => {
                return Err(e);
            },
        };
        let next = f(current);
        next.save(storage)
    }
}

// ---------------------------------------------------------------------------
// Laws relating the primitives.
// ---------------------------------------------------------------------------

/// Save/load consistency: a load observing the store a successful save of
/// `v` left behind returns exactly `v`.
pub proof fn lemma_save_load_consistent<T: Codec>(
    m0: Map<Seq<u8>, Seq<u8>>,
    m1: Map<Seq<u8>, Seq<u8>>,
    k: Seq<u8>,
    v: T::V,
    rs: Result<(), StdError>,
    rl: Result<T, StdError>,
)
    requires
        T::enc_ok_of(v),
        save_outcome::<T>(m0, m1, k, v, rs),
        load_outcome::<T>(m1, k, rl),
    ensures
        rl matches Ok(x) && x@ == v,
{
    assert(m1 == m0.insert(k, T::enc_of(v)));
    assert(m1.dom().contains(k));
    assert(m1[k] == T::enc_of(v));
}

/// Absence: a load from a key never written fails with `NotFound`.
pub proof fn lemma_load_absent<T: Codec>(
    m: Map<Seq<u8>, Seq<u8>>,
    k: Seq<u8>,
    r: Result<T, StdError>,
)
    requires
        !m.dom().contains(k),
        load_outcome::<T>(m, k, r),
    ensures
        r matches Err(e) && e is NotFound,
{
}

/// Key isolation: a save under one key never makes a value appear under a
/// distinct key; loading the other, previously unwritten key still fails
/// with `NotFound`, whether or not the save succeeded.
pub proof fn lemma_key_isolation<T: Codec>(
    m0: Map<Seq<u8>, Seq<u8>>,
    m1: Map<Seq<u8>, Seq<u8>>,
    a: Seq<u8>,
    b: Seq<u8>,
    v: T::V,
    rs: Result<(), StdError>,
    rl: Result<T, StdError>,
)
    requires
        a != b,
        !m0.dom().contains(b),
        save_outcome::<T>(m0, m1, a, v, rs),
        load_outcome::<T>(m1, b, rl),
    ensures
        rl matches Err(e) && e is NotFound,
{
    assert(!m1.dom().contains(b));
}

/// Update equivalence: a successful update on a slot holding the canonical
/// encoding of `v0` is observably load-apply-save: afterwards the slot holds
/// the encoding of a value the mutation may return for a value equal to
/// `v0`, and nothing else changed.
pub proof fn lemma_update_equivalence<Target: Codec, F: FnOnce(Target) -> Target>(
    f: F,
    m0: Map<Seq<u8>, Seq<u8>>,
    m1: Map<Seq<u8>, Seq<u8>>,
    k: Seq<u8>,
    v0: Target,
    r: Result<(), StdError>,
)
    requires
        Target::enc_ok_of(v0@),
        m0.dom().contains(k),
        m0[k] == Target::enc_of(v0@),
        update_outcome::<Target, F>(f, m0, m1, k, r),
        r is Ok,
    ensures
        exists|va: Target, v1: Target|
            {
                &&& va@ == v0@
                &&& #[trigger] call_ensures(f, (va,), v1)
                &&& Target::enc_ok_of(v1@)
                &&& m1 == m0.insert(k, Target::enc_of(v1@))
            },
{
    let (va, v1): (Target, Target) = choose|va: Target, v1: Target|
        {
            &&& (forall|w: Target::V| #![trigger Target::enc_of(w)]
                Target::enc_ok_of(w) && Target::enc_of(w) == m0[k] ==> va@ == w)
            &&& #[trigger] call_ensures(f, (va,), v1)
            &&& Target::enc_ok_of(v1@)
            &&& m1 == m0.insert(k, Target::enc_of(v1@))
        };
    assert(va@ == v0@);
    assert(call_ensures(f, (va,), v1) && Target::enc_ok_of(v1@) && m1 == m0.insert(
        k,
        Target::enc_of(v1@),
    ));
}

} // verus!
