//! Save-on-write change detection.
//!
//! A [`HashListener`] owns a value together with a mutation callback and
//! hands out scoped access through a [`HashListenerLock`].  The lock records
//! a content digest of the value when it is opened; when it is closed it
//! recomputes the digest and invokes the callback exactly when mutable
//! access was taken *and* the digest differs — a mutable access that left
//! the content unchanged is free.

mod hashing;
mod listener;
mod persist;
mod store;

pub use hashing::{le_bytes, spec_le_bytes, ContentHash};
pub use persist::{spec_le_value, Codec, IoError, LeU64Codec, MemStorage, Storage};
pub use store::{lemma_save_load_round_trip, DataReadError, SaveCallback, SoW};
pub use listener::{spec_lock, HashListener, HashListenerLock, OnChange};
pub use listener::{
    lemma_idle_lock_never_fires, lemma_real_change_detected, lemma_unchanged_content_not_detected,
};
