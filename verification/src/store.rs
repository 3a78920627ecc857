//! A value wrapped so that meaningful changes are written back to storage.
//!
//! [`SoW`] ("save on write") loads a value from a storage backend — or
//! writes a fresh value to it — and wraps it in a [`HashListener`] whose
//! callback encodes the current value and overwrites the backend.  Locks
//! taken on the store behave exactly as on the listener: the write-back
//! runs only when a lock closes over a meaningful change.

use crate::hashing::ContentHash;
use crate::listener::{spec_lock, HashListener, HashListenerLock, OnChange};
use crate::persist::{Codec, IoError, Storage};
use vstd::prelude::*;

verus! {

/// Why constructing a store failed.  Construction is the only place the
/// store surfaces an error: the write-back of a closing lock is best
/// effort and swallows its failures.
#[derive(Clone, Copy, Debug, PartialEq, Eq, Structural)]
pub enum DataReadError {
    /// The storage backend could not complete an operation.
    ReadError,
    /// The stored bytes do not decode to a value.
    DecodeError,
}

/// The callback a [`SoW`] installs: encode the current value and write it
/// back to the bound storage, best effort.  A failed write is swallowed —
/// a closing lock cannot fail the caller — so storage may silently fall
/// behind the in-memory value.
pub struct SaveCallback<C, S> {
    codec: C,
    storage: S,
}

impl<C, S> SaveCallback<C, S> {
    /// The encoding used for write-back.
    pub closed spec fn codec(&self) -> C {
        self.codec
    }

    /// The storage written to.
    pub closed spec fn storage(&self) -> S {
        self.storage
    }

    /// Bind an encoding to a storage destination.
    pub fn new(codec: C, storage: S) -> (r: Self)
        ensures
            r.codec() == codec,
            r.storage() == storage,
    {
        SaveCallback { codec, storage }
    }

    /// Take the encoding and the storage back out.
    pub fn into_parts(self) -> (r: (C, S))
        ensures
            r.0 == self.codec(),
            r.1 == self.storage(),
    {
        (self.codec, self.storage)
    }

    /// The storage, for inspection.
    pub fn storage_ref(&self) -> (r: &S)
        ensures
            *r == self.storage(),
    {
        &self.storage
    }
}

impl<C, S: Storage> SaveCallback<C, S> {
    /// Encode the value and write it to storage, reporting the outcome:
    /// on success the storage holds bytes that decode back to the value.
    pub fn save<T>(&mut self, item: &T) -> (r: Result<(), IoError>) where C: Codec<T>
        ensures
            final(self).codec() == old(self).codec(),
            r is Ok ==> (final(self).storage().contents() matches Some(b)
                && old(self).codec().spec_decode(b) == Some(*item)),
    {
        let bytes = self.codec.encode(item);
        self.storage.write_all(&bytes)
    }
}

impl<T, C: Codec<T>, S: Storage> OnChange<T> for SaveCallback<C, S> {
    /// One write-back leaves the value as it received it and keeps the
    /// encoding; whether the storage took the write is the backend's
    /// decision and is not promised.
    open spec fn effect(&self, item: T, next_self: Self, next_item: T) -> bool {
        &&& next_item == item
        &&& next_self.codec() == self.codec()
    }

    fn on_change(&mut self, item: &mut T) {
        let _ = self.save(item);
    }
}

/// A save-on-write value: a [`HashListener`] whose callback writes the
/// encoded value back to the storage it was constructed over.
pub struct SoW<T: ContentHash, C: Codec<T>, S: Storage> {
    item: HashListener<T, SaveCallback<C, S>>,
}

impl<T: ContentHash, C: Codec<T>, S: Storage> SoW<T, C, S> {
    /// The embedded listener.
    pub closed spec fn listener(&self) -> HashListener<T, SaveCallback<C, S>> {
        self.item
    }

    /// The guarded value.
    pub open spec fn value(&self) -> T {
        self.listener().value()
    }

    /// The encoding bound into the write-back callback.
    pub open spec fn codec(&self) -> C {
        self.listener().callback().codec()
    }

    /// The storage bound into the write-back callback.
    pub open spec fn storage(&self) -> S {
        self.listener().callback().storage()
    }

    /// Wrap already-read bytes: decode them and guard the decoded value.
    /// Succeeds exactly when the bytes decode.
    pub fn from_bytes(bytes: &Vec<u8>, codec: C, storage: S) -> (r: Result<Self, DataReadError>)
        ensures
            match r {
                Ok(store) => {
                    &&& codec.spec_decode(bytes@) == Some(store.value())
                    &&& store.codec() == codec
                    &&& store.storage() == storage
                },
                Err(e) => e == DataReadError::DecodeError && codec.spec_decode(bytes@) is None,
            },
    {
        match codec.decode(bytes) {
            Some(data) => Ok(SoW { item: HashListener::new(data, SaveCallback::new(codec, storage)) }),
            None => Err(DataReadError::DecodeError),
        }
    }

    /// Read the storage, decode its contents, and guard the decoded value;
    /// the write-back callback is bound to the same storage.  Reports
    /// [`DataReadError::ReadError`] when the read fails — in particular,
    /// always, when the storage holds nothing — and
    /// [`DataReadError::DecodeError`] when what it holds does not decode.
    pub fn new_from_file(codec: C, storage: S) -> (r: Result<Self, DataReadError>)
        ensures
            match r {
                Ok(store) => {
                    &&& (storage.contents() matches Some(b)
                        && codec.spec_decode(b) == Some(store.value()))
                    &&& store.codec() == codec
                    &&& store.storage() == storage
                },
                Err(e) => {
                    ||| e == DataReadError::ReadError
                    ||| (e == DataReadError::DecodeError && (storage.contents() matches Some(b)
                        && codec.spec_decode(b) is None))
                },
            },
            storage.contents() is None ==> (r matches Err(e) && e == DataReadError::ReadError),
    {
        match storage.read_all() {
            Ok(bytes) => Self::from_bytes(&bytes, codec, storage),
            Err(_) => Err(DataReadError::ReadError),
        }
    }

    /// Write the value to storage first, then guard it with the write-back
    /// callback bound to that storage.  Fails with
    /// [`DataReadError::ReadError`] when the initial write fails; no store
    /// is handed out then.
    pub fn new_from_item(item: T, codec: C, storage: S) -> (r: Result<Self, DataReadError>)
        ensures
            match r {
                Ok(store) => {
                    &&& store.value() == item
                    &&& store.codec() == codec
                    &&& (store.storage().contents() matches Some(b)
                        && codec.spec_decode(b) == Some(item))
                },
                Err(e) => e == DataReadError::ReadError,
            },
    {
        let mut callback = SaveCallback::new(codec, storage);
        match callback.save(&item) {
            Ok(_) => Ok(SoW { item: HashListener::new(item, callback) }),
            Err(_) => Err(DataReadError::ReadError),
        }
    }

    /// Open scoped access to the guarded value, exactly as
    /// [`HashListener::lock`] does.
    pub fn lock(self) -> (lck: HashListenerLock<T, SaveCallback<C, S>>)
        ensures
            lck == spec_lock(self.listener()),
            lck.value() == self.value(),
            lck.callback().codec() == self.codec(),
            lck.callback().storage() == self.storage(),
            !lck.possible_change_seen(),
            lck.hash_at_open() == self.value().hash_spec(),
    {
        self.item.lock()
    }

    /// Give the embedded listener up, e.g. to inspect the storage behind
    /// its callback after a lock was closed.
    pub fn into_listener(self) -> (r: HashListener<T, SaveCallback<C, S>>)
        ensures
            r == self.listener(),
    {
        self.item
    }

    /// Wrap a listener given back by a closing lock into a store again.
    pub fn from_listener(item: HashListener<T, SaveCallback<C, S>>) -> (r: Self)
        ensures
            r.listener() == item,
    {
        SoW { item }
    }
}

/// Bytes that a value was saved as decode back to that very value: loading
/// immediately after saving yields a value equal to — and in particular
/// hash-equivalent to — the one saved.
pub proof fn lemma_save_load_round_trip<T: ContentHash, C: Codec<T>>(
    codec: C,
    item: T,
    bytes: Seq<u8>,
    loaded: T,
)
    requires
        codec.spec_decode(bytes) == Some(item),
        codec.spec_decode(bytes) == Some(loaded),
    ensures
        loaded == item,
        loaded.hash_spec() == item.hash_spec(),
{
}

} // verus!
