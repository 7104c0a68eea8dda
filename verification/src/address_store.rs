use vstd::prelude::*;

use core::marker::PhantomData;

use crate::codec::Codec;
use crate::error::StdError;
use crate::storage::load_outcome;
use crate::storage::save_outcome;
use crate::storage::AsTargetRef;
use crate::storage::DynamicKey;
use crate::storage::DynamicLoad;
use crate::storage::DynamicSave;
use crate::storage::ReadonlyStorage;
use crate::storage::Storage;
use crate::storage::Store;

verus! {

/// An identifier's canonical byte representation, used to derive
/// per-identifier keys.
#[derive(Clone, Debug, PartialEq)]
pub struct CanonicalAddr(pub Vec<u8>);

impl View for CanonicalAddr {
    type V = Seq<u8>;

    open spec fn view(&self) -> Seq<u8> {
        self.0@
    }
}

/// The pending-save kind of a deferred operation: holds an unowned
/// reference to the value that will be persisted.
pub struct Save<'a, T>(pub &'a T);

/// The pending-load kind of a deferred operation: carries nothing.
pub struct Load;

/// A deferred save or load, bound to an identifier-derived key.
///
/// An operation is pure data until it is explicitly executed against a
/// storage handle; constructing one touches no store, and executing one
/// consumes it and performs exactly one get or set.
pub struct Operation<T, Op> {
    _t: PhantomData<T>,
    op: Op,
    address: CanonicalAddr,
}

impl<T, Op> DynamicKey for Operation<T, Op> {
    closed spec fn spec_key(&self) -> Seq<u8> {
        self.address@
    }

    fn key(&self) -> (r: &[u8]) {
        self.address.0.as_slice()
    }
}

impl<T, Op> Store<T> for Operation<T, Op> {

}

impl<'a, T> AsTargetRef<T> for Operation<T, Save<'a, T>> {
    closed spec fn spec_target(&self) -> T {
        *self.op.0
    }

    fn as_target(&self) -> (r: &T) {
        self.op.0
    }
}

/// Build a pending save for a value under an identifier-derived key.
pub trait SaveForAddress: Codec {
    /// Bind `self` and the identifier's key into an operation. Touches no
    /// store: the value is only referenced and the key recorded.
    fn save_for_address<'a>(&'a self, addr: CanonicalAddr) -> (r: Operation<Self, Save<'a, Self>>)
        ensures
            r.spec_key() == addr@,
            r.spec_target() == *self,
    ;
}

/// Build a pending load for a type under an identifier-derived key.
pub trait LoadForAddress: Codec {
    /// Bind the identifier's key into an operation. Touches no store: only
    /// the key is recorded.
    fn load_for_address(addr: CanonicalAddr) -> (r: Operation<Self, Load>)
        ensures
            r.spec_key() == addr@,
    ;
}

impl<T: Codec> SaveForAddress for T {
    fn save_for_address<'a>(&'a self, addr: CanonicalAddr) -> (r: Operation<Self, Save<'a, Self>>) {
        Operation { _t: PhantomData, op: Save(self), address: addr }
    }
}

impl<T: Codec> LoadForAddress for T {
    fn load_for_address(addr: CanonicalAddr) -> (r: Operation<Self, Load>) {
        Operation { _t: PhantomData, op: Load, address: addr }
    }
}

/// Execute a pending save against a storage handle, consuming it.
pub trait ExecuteSaveWithStorage<Target: Codec>: DynamicKey + AsTargetRef<Target> + Sized {
    /// Performs exactly one set against the store (none when encoding
    /// fails).
    fn execute_with_storage<S: Storage>(self, storage: &mut S) -> (r: Result<(), StdError>)
        ensures
            save_outcome::<Target>(
                old(storage).contents(),
                final(storage).contents(),
                self.spec_key(),
                self.spec_target()@,
                r,
            ),
    ;
}

/// Execute a pending load against a storage handle, consuming it.
pub trait ExecuteLoadWithStorage<T: Codec>: DynamicKey + Sized {
    /// Performs exactly one get against the store.
    fn execute_with_storage<S: ReadonlyStorage>(self, storage: &S) -> (r: Result<T, StdError>)
        ensures
            load_outcome::<T>(storage.contents(), self.spec_key(), r),
    ;
}

impl<'a, T: Codec> ExecuteSaveWithStorage<T> for Operation<T, Save<'a, T>> {
    fn execute_with_storage<S: Storage>(self, storage: &mut S) -> (r: Result<(), StdError>) {
        self.save(storage)
    }
}

impl<T: Codec> ExecuteLoadWithStorage<T> for Operation<T, Load> {
    fn execute_with_storage<S: ReadonlyStorage>(self, storage: &S) -> (r: Result<T, StdError>) {
        self.load(storage)
    }
}

} // verus!
