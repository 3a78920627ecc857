//! The change-detecting owner of a value and its scoped access lock.
//!
//! A [`HashListener`] owns a value and a mutation callback.  All access to
//! the value goes through a [`HashListenerLock`], obtained with
//! [`HashListener::lock`], which remembers the content digest of the value
//! at the moment it was opened.  Closing the lock recomputes the digest and
//! invokes the callback exactly when mutable access was taken and the
//! digest moved; the lock owns the listener for its whole lifetime, so no
//! second lock can observe the value in between.

use crate::hashing::ContentHash;
use vstd::prelude::*;

verus! {

/// A mutation callback, invoked by a closing lock when the content of the
/// guarded value changed.
///
/// The host supplies the implementation — the listener only promises *when*
/// the callback runs, not what it does.  [`OnChange::effect`] is the
/// implementor's own description of one invocation: it relates the callback
/// state and the guarded value before the call to both after the call.
pub trait OnChange<T>: Sized {
    /// What one invocation of the callback may do: relates the callback and
    /// the value it received to the callback and value left behind.  The
    /// default claims nothing; an implementation verified against it
    /// overrides it with its own description.
    open spec fn effect(&self, item: T, next_self: Self, next_item: T) -> bool {
        true
    }

    /// React to a changed value.  The value is handed over mutably, so the
    /// callback may adjust it; most callbacks only read it.
    fn on_change(&mut self, item: &mut T)
        ensures
            old(self).effect(*old(item), *final(self), *final(item)),
    ;
}

/// Owns a value and a callback that runs when a change to the value's
/// content is detected.
///
/// Changes are detected by content digest: a lock taken with
/// [`HashListener::lock`] compares the digest at open against the digest at
/// close, and a mutation that does not move the digest does not count as a
/// change.
pub struct HashListener<T: ContentHash, F: OnChange<T>> {
    item: T,
    method: F,
}

/// Scoped access to the value of a [`HashListener`], detecting on close
/// whether the value was changed.
///
/// The lock owns the listener until [`HashListenerLock::close`] gives it
/// back, so at most one lock on a listener is ever alive.  It tracks
/// whether mutable access was taken and keeps the content digest computed
/// when it was opened.
pub struct HashListenerLock<T: ContentHash, F: OnChange<T>> {
    listener: HashListener<T, F>,
    possible_change: bool,
    hash: u64,
}

impl<T: ContentHash, F: OnChange<T>> HashListener<T, F> {
    /// The guarded value.
    pub closed spec fn value(&self) -> T {
        self.item
    }

    /// The stored callback.
    pub closed spec fn callback(&self) -> F {
        self.method
    }

    /// Take ownership of a value and the callback to run on change.
    /// Performs no hashing and invokes nothing.
    pub fn new(item: T, method: F) -> (r: Self)
        ensures
            r.value() == item,
            r.callback() == method,
    {
        Self { item, method }
    }

    /// Take the value and the callback back out of the listener.
    pub fn into_parts(self) -> (r: (T, F))
        ensures
            r.0 == self.value(),
            r.1 == self.callback(),
    {
        let HashListener { item, method } = self;
        (item, method)
    }

    /// Open scoped access to the value: digest the content as it stands
    /// and hand the listener to a fresh lock.
    pub fn lock(self) -> (lck: HashListenerLock<T, F>)
        ensures
            lck == spec_lock(self),
            lck.value() == self.value(),
            lck.callback() == self.callback(),
            !lck.possible_change_seen(),
            lck.hash_at_open() == self.value().hash_spec(),
            !lck.change_detected(),
    {
        let hash = self.item.content_hash();
        HashListenerLock { listener: self, possible_change: false, hash }
    }
}

/// The lock that [`HashListener::lock`] returns: no mutable access seen
/// yet, and the digest at open is the digest of the value as it stands.
pub closed spec fn spec_lock<T: ContentHash, F: OnChange<T>>(
    listener: HashListener<T, F>,
) -> HashListenerLock<T, F> {
    HashListenerLock { listener, possible_change: false, hash: listener.value().hash_spec() }
}

impl<T: ContentHash, F: OnChange<T>> HashListenerLock<T, F> {
    /// The guarded value as it currently stands.
    pub closed spec fn value(&self) -> T {
        self.listener.item
    }

    /// The callback of the underlying listener.
    pub closed spec fn callback(&self) -> F {
        self.listener.method
    }

    /// Whether mutable access was taken through this lock.
    pub closed spec fn possible_change_seen(&self) -> bool {
        self.possible_change
    }

    /// The content digest computed when the lock was opened.
    pub closed spec fn hash_at_open(&self) -> u64 {
        self.hash
    }

    /// The listener held by this lock.
    pub closed spec fn listener(&self) -> HashListener<T, F> {
        self.listener
    }

    /// A change counts as detected exactly when mutable access was taken
    /// and the content digest moved away from the digest at open.
    pub open spec fn change_detected(&self) -> bool {
        self.possible_change_seen() && self.value().hash_spec() != self.hash_at_open()
    }

    /// Whether mutable access was taken, regardless of what it wrote.
    pub fn detected_possible_change(&self) -> (r: bool)
        ensures
            r == self.possible_change_seen(),
    {
        self.possible_change
    }

    /// Whether the value's content changed since the lock was opened.
    /// Without mutable access this is `false` with no digest recomputed;
    /// otherwise the current digest is compared against the digest at open.
    pub fn detected_change(&self) -> (r: bool)
        ensures
            r == self.change_detected(),
    {
        if !self.possible_change {
            return false;
        }
        let current = self.listener.item.content_hash();
        self.hash != current
    }

    /// Read access to the guarded value; never counts as a possible change.
    pub fn read(&self) -> (r: &T)
        ensures
            *r == self.value(),
    {
        &self.listener.item
    }

    /// Mutable access to the guarded value.  Taking it marks the lock as
    /// possibly changed, whether or not anything is written through it.
    pub fn get_mut(&mut self) -> (r: &mut T)
        ensures
            *r == old(self).value(),
            final(self).value() == *final(r),
            final(self).possible_change_seen(),
            final(self).callback() == old(self).callback(),
            final(self).hash_at_open() == old(self).hash_at_open(),
    {
        self.possible_change = true;
        &mut self.listener.item
    }

    /// Close the lock: recheck for a change, run the callback on the
    /// current value exactly when one was detected, and give the listener
    /// back.  The second component reports whether the callback ran.
    pub fn close(self) -> (r: (HashListener<T, F>, bool))
        ensures
            r.1 == self.change_detected(),
            !self.change_detected() ==> r.0 == self.listener(),
            !self.change_detected() ==> (r.0.value() == self.value() && r.0.callback()
                == self.callback()),
            self.change_detected() ==> self.callback().effect(
                self.value(),
                r.0.callback(),
                r.0.value(),
            ),
    {
        let changed = self.detected_change();
        let HashListenerLock { listener, possible_change: _, hash: _ } = self;
        let HashListener { mut item, mut method } = listener;
        if changed {
            method.on_change(&mut item);
        }
        (HashListener { item, method }, changed)
    }
}

/// A lock that was never mutably accessed detects no change, so closing it
/// keeps the listener as it stands and fires nothing — and since
/// [`HashListener::lock`] opens every lock in that state, opening and
/// closing locks without access is idempotent, however often repeated.
pub proof fn lemma_idle_lock_never_fires<T: ContentHash, F: OnChange<T>>(
    listener: HashListener<T, F>,
)
    ensures
        !spec_lock(listener).change_detected(),
        spec_lock(listener).listener() == listener,
{
}

/// Mutable access whose result has the same content digest as the value at
/// open is not detected as a change: no-op mutations are free.
pub proof fn lemma_unchanged_content_not_detected<T: ContentHash, F: OnChange<T>>(
    lck: HashListenerLock<T, F>,
)
    requires
        lck.value().hash_spec() == lck.hash_at_open(),
    ensures
        !lck.change_detected(),
{
}

/// A lock whose value's digest moved away from the digest at open detects
/// the change as soon as mutable access was taken.
pub proof fn lemma_real_change_detected<T: ContentHash, F: OnChange<T>>(
    lck: HashListenerLock<T, F>,
)
    requires
        lck.possible_change_seen(),
        lck.value().hash_spec() != lck.hash_at_open(),
    ensures
        lck.change_detected(),
{
}

} // verus!
