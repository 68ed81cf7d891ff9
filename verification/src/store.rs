use vstd::prelude::*;

use crate::document::{
    replace_event, spec_read_window, ReadOutcome, RunInfo, RunKind, SharedDocument,
    TextChangeEvent,
};
use crate::errors::StoreError;
use crate::flags::{
    flag_check, spec_flag_check, LOCK_READ, LOCK_READWRITE, LOCK_SYNC, STATUS_LOADING,
    STATUS_READONLY, STATUS_REGIONS,
};
use crate::lock::{spec_is_locked, LockGuard, LockManager};
use crate::notify::{spec_delivers_text_change, NotificationRegistry, StoreObserver};

verus! {

/// What a lock request came to, when it did not fail outright.
#[derive(Clone, Copy, PartialEq, Eq, Debug, Structural)]
pub enum LockOutcome {
    /// The lock was granted, the callback ran while it was held, and the
    /// store is Unlocked again.
    Granted,
    /// A synchronous grant was asked for while a lock was already held.
    WouldBlockSync,
    /// An asynchronous grant was asked for while a lock was already held;
    /// no queueing of lock requests is implemented.
    AsyncUnsupported,
}

/// One callback handed to the registered observer, as the store's
/// delivery history records it.
#[derive(Clone, Copy, PartialEq, Eq, Debug, Structural)]
pub enum Delivery {
    /// The lock-granted callback, invoked while the lock was held.
    LockGranted { flags: u32 },
    /// The text-change callback, invoked after the write lock's release.
    TextChanged { change: TextChangeEvent },
}

/// The store's static capability flags.
#[derive(Clone, Copy, PartialEq, Eq, Debug, Structural)]
pub struct StoreStatus {
    pub dynamic_flags: u32,
    pub static_flags: u32,
}

/// Capability name: the plain shared-handle surface every object offers.
pub const CAP_BASE_HANDLE: u32 = 0x1;
/// Capability name: the document-store surface this object implements.
pub const CAP_DOCUMENT_STORE: u32 = 0x2;

/// The document store: text content, lock state, observer registration
/// and the host's reference-counted handle convention, composed behind
/// one externally visible contract.
pub struct TfTextStore<O> {
    pub doc: SharedDocument,
    pub lock: LockManager,
    pub registry: NotificationRegistry<O>,
    pub refs: u32,
    /// The store's delivery history, kept alongside the data it
    /// describes: every callback handed to the observer, oldest first.
    pub log: Ghost<Seq<Delivery>>,
}

impl<O> TfTextStore<O> {
    /// Every callback the store has handed to its observer, oldest first.
    pub open spec fn deliveries(&self) -> Seq<Delivery> {
        self.log@
    }

    /// The store's internal consistency: an unlocked store keeps no stale
    /// request flags around.
    pub open spec fn wf(&self) -> bool {
        self.lock.state is Unlocked ==> self.lock.flags == 0
    }
}

/// What a lock request returns once the observer's lock-granted callback
/// has come back: a grant when the callback succeeded, and the
/// callback's own failure otherwise.
pub fn lock_grant_outcome(callback_result: Result<(), StoreError>) -> (r: Result<
    LockOutcome,
    StoreError,
>)
    ensures
        callback_result is Ok ==> (r matches Ok(o) && o == LockOutcome::Granted),
        callback_result matches Err(e) ==> (r matches Err(e2) && e2 == e),
{
    match callback_result {
        Ok(_) => Ok(LockOutcome::Granted),
        Err(e) => Err(e),
    }
}

impl<O: StoreObserver> TfTextStore<O> {
    /// A fresh store: empty document, nothing locked, nobody subscribed,
    /// one reference held, nothing yet delivered.
    pub fn new() -> (store: TfTextStore<O>)
        ensures
            store.doc@ == Seq::<u8>::empty(),
            store.lock.state is Unlocked,
            store.lock.flags == 0,
            store.registry.observer is None,
            store.registry.mask == 0,
            store.refs == 1,
            store.deliveries() == Seq::<Delivery>::empty(),
            store.wf(),
    {
        TfTextStore {
            doc: SharedDocument::new(),
            lock: LockManager::new(),
            registry: NotificationRegistry::new(),
            refs: 1,
            log: Ghost(Seq::empty()),
        }
    }

    /// Registers `observer` with its interest mask, replacing whatever
    /// was registered before; a missing handle is refused.
    pub fn subscribe(&mut self, observer: Option<O>, mask: u32) -> (r: Result<(), StoreError>)
        ensures
            final(self).doc == old(self).doc,
            final(self).lock == old(self).lock,
            final(self).refs == old(self).refs,
            final(self).deliveries() == old(self).deliveries(),
            observer is None ==> (r matches Err(e) && e == StoreError::InvalidArgument
                && final(self).registry == old(self).registry),
            observer is Some ==> r is Ok && final(self).registry.observer == observer
                && final(self).registry.mask == mask,
    {
        self.registry.subscribe(observer, mask)
    }

    /// Clears the observer registration; fails with `InvalidArgument` if
    /// nothing is registered.
    pub fn unsubscribe(&mut self) -> (r: Result<(), StoreError>)
        ensures
            final(self).doc == old(self).doc,
            final(self).lock == old(self).lock,
            final(self).refs == old(self).refs,
            final(self).deliveries() == old(self).deliveries(),
            old(self).registry.observer is Some ==> r is Ok
                && final(self).registry.observer is None && final(self).registry.mask == 0,
            old(self).registry.observer is None ==> (r matches Err(e)
                && e == StoreError::InvalidArgument
                && final(self).registry == old(self).registry),
    {
        self.registry.unsubscribe()
    }

    /// Handles one host lock request.
    ///
    /// With no observer registered the request fails with `Unexpected`: a
    /// lock with nobody to notify is pointless. While a lock is already
    /// held, a synchronous request comes back `WouldBlockSync` and an
    /// asynchronous one `AsyncUnsupported`, the state untouched either
    /// way. From Unlocked, the lock is acquired, the observer's
    /// lock-granted callback is invoked exactly once while it is held,
    /// the lock is released on every path out, and the callback's own
    /// failure, if any, becomes this request's result. The lock state
    /// after the call is always the one before it.
    pub fn request_lock(&mut self, flags: u32) -> (r: Result<LockOutcome, StoreError>)
        requires
            old(self).wf(),
        ensures
            final(self).wf(),
            final(self).doc == old(self).doc,
            final(self).lock == old(self).lock,
            final(self).registry == old(self).registry,
            final(self).refs == old(self).refs,
            old(self).registry.observer is None ==> (r matches Err(e)
                && e == StoreError::Unexpected
                && final(self).deliveries() == old(self).deliveries()),
            (old(self).registry.observer is Some && !(old(self).lock.state is Unlocked)
                && spec_flag_check(flags, LOCK_SYNC)) ==> (r matches Ok(o)
                && o == LockOutcome::WouldBlockSync
                && final(self).deliveries() == old(self).deliveries()),
            (old(self).registry.observer is Some && !(old(self).lock.state is Unlocked)
                && !spec_flag_check(flags, LOCK_SYNC)) ==> (r matches Ok(o)
                && o == LockOutcome::AsyncUnsupported
                && final(self).deliveries() == old(self).deliveries()),
            (old(self).registry.observer is Some && old(self).lock.state is Unlocked) ==> (
                final(self).deliveries() == old(self).deliveries().push(
                    Delivery::LockGranted { flags },
                ) && (r matches Ok(o) ==> o == LockOutcome::Granted)),
    {
        if self.registry.observer.is_none() {
            return Err(StoreError::Unexpected);
        }
        if self.lock.is_held() {
            if flag_check(flags, LOCK_SYNC) {
                return Ok(LockOutcome::WouldBlockSync);
            }
            return Ok(LockOutcome::AsyncUnsupported);
        }
        let guard = match self.lock.try_acquire(flags) {
            Ok(g) => g,
            Err(_) => unreached(),
        };
        let callback_result = self.registry.notify_lock_granted(flags);
        self.lock.release(guard);
        self.log = Ghost(self.log@.push(Delivery::LockGranted { flags }));
        lock_grant_outcome(callback_result)
    }

    /// Replaces the whole document under an internally acquired write
    /// lock, then — strictly after that lock's release — delivers the
    /// change to the observer if one is registered with the text-change
    /// bit set. Returns false, changing nothing, when a lock is already
    /// held.
    pub fn set_string(&mut self, text: Vec<u8>) -> (r: bool)
        requires
            old(self).wf(),
        ensures
            final(self).wf(),
            final(self).lock == old(self).lock,
            final(self).registry == old(self).registry,
            final(self).refs == old(self).refs,
            r == (old(self).lock.state is Unlocked),
            !r ==> final(self).doc == old(self).doc
                && final(self).deliveries() == old(self).deliveries(),
            r ==> final(self).doc@ == text@,
            (r && spec_delivers_text_change(
                old(self).registry.observer is Some,
                old(self).registry.mask,
            )) ==> final(self).deliveries() == old(self).deliveries().push(
                Delivery::TextChanged {
                    change: replace_event(old(self).doc@.len(), text@.len()),
                },
            ),
            (r && !spec_delivers_text_change(
                old(self).registry.observer is Some,
                old(self).registry.mask,
            )) ==> final(self).deliveries() == old(self).deliveries(),
    {
        let guard = match self.lock.try_acquire(LOCK_READWRITE) {
            Ok(g) => g,
            Err(_) => {
                return false;
            },
        };
        let change = self.doc.replace(text);
        self.lock.release(guard);
        let delivered = self.registry.notify_text_change(change);
        if delivered {
            self.log = Ghost(self.log@.push(Delivery::TextChanged { change }));
        }
        true
    }

    /// Reads the document: fails with `NoLock` unless a compatible read
    /// lock is held (a ReadWrite lock also permits reads), and otherwise
    /// copies `min(content_length, max_len)` units, reports the whole
    /// content as one plain run, and names the offset after the content.
    /// A read without the lock fails for every input; only a read that
    /// reaches the content needs its next offset to fit the machine.
    pub fn read_text(&self, start: usize, max_len: usize) -> (r: Result<ReadOutcome, StoreError>)
        requires
            spec_is_locked(self.lock, LOCK_READ) ==> start + self.doc@.len() <= usize::MAX,
        ensures
            !spec_is_locked(self.lock, LOCK_READ) ==> (r matches Err(e) && e == StoreError::NoLock),
            spec_is_locked(self.lock, LOCK_READ) ==> (r matches Ok(out)
                && out.copied@ == spec_read_window(self.doc@, start, max_len)
                && out.run == RunInfo { kind: RunKind::Plain, count: self.doc@.len() as usize }
                && out.next_offset == start + self.doc@.len()),
    {
        if !self.lock.is_locked(LOCK_READ) {
            return Err(StoreError::NoLock);
        }
        Ok(self.doc.read_range(start, max_len))
    }

    /// Whether a lock compatible with `flags` is currently held.
    pub fn is_locked(&self, flags: u32) -> (locked: bool)
        ensures
            locked == spec_is_locked(self.lock, flags),
    {
        self.lock.is_locked(flags)
    }

    /// Acquires the lock that `flags` asks for, handing an owned guard
    /// back; refused while any lock is held. Lock attribution is global
    /// mutual exclusion, not per-caller reentrant: a holder's own nested
    /// request is refused like any other.
    pub fn try_lock(&mut self, flags: u32) -> (r: Result<LockGuard, ()>)
        ensures
            old(self).wf() ==> final(self).wf(),
            final(self).doc == old(self).doc,
            final(self).registry == old(self).registry,
            final(self).refs == old(self).refs,
            final(self).deliveries() == old(self).deliveries(),
            r is Ok <==> old(self).lock.state is Unlocked,
            r matches Ok(g) ==> final(self).lock == crate::lock::spec_after_acquire(
                old(self).lock,
                flags,
            ) && g.flags() == flags,
            r is Err ==> final(self).lock == old(self).lock,
    {
        self.lock.try_acquire(flags)
    }

    /// Gives a granted guard back, returning the store to Unlocked on
    /// this as on every other path.
    pub fn unlock(&mut self, guard: LockGuard)
        ensures
            final(self).wf(),
            final(self).doc == old(self).doc,
            final(self).registry == old(self).registry,
            final(self).refs == old(self).refs,
            final(self).deliveries() == old(self).deliveries(),
            final(self).lock.state is Unlocked,
            final(self).lock.flags == 0,
    {
        self.lock.release(guard);
    }

    /// The static capability flags: the document reports itself read-only
    /// and loading, with region support.
    pub fn get_status(&self) -> (status: StoreStatus)
        ensures
            (status == StoreStatus {
                dynamic_flags: STATUS_READONLY | STATUS_LOADING,
                static_flags: STATUS_REGIONS,
            }),
    {
        StoreStatus {
            dynamic_flags: STATUS_READONLY | STATUS_LOADING,
            static_flags: STATUS_REGIONS,
        }
    }

    /// Takes one more reference to the shared handle and hands the
    /// updated count back, per the host's counting convention.
    pub fn add_ref(&mut self) -> (count: u32)
        requires
            old(self).refs < u32::MAX,
        ensures
            final(self).refs == old(self).refs + 1,
            count == final(self).refs,
            final(self).doc == old(self).doc,
            final(self).lock == old(self).lock,
            final(self).registry == old(self).registry,
            final(self).deliveries() == old(self).deliveries(),
    {
        self.refs = self.refs + 1;
        self.refs
    }

    /// Gives one reference back, handing the count after the call back.
    /// No destruction is modeled beyond the count reaching zero.
    pub fn release(&mut self) -> (remaining: u32)
        requires
            old(self).refs > 0,
        ensures
            final(self).refs == old(self).refs - 1,
            remaining == final(self).refs,
            final(self).doc == old(self).doc,
            final(self).lock == old(self).lock,
            final(self).registry == old(self).registry,
            final(self).deliveries() == old(self).deliveries(),
    {
        self.refs = self.refs - 1;
        self.refs
    }

    /// The trust level of the shared handle: always the base level.
    pub fn get_trust_level(&self) -> (level: i32)
        ensures
            level == 0,
    {
        0
    }

    /// Answers whether this object satisfies the named capability: the
    /// base handle and the document store are satisfied, taking one more
    /// reference as the handle convention asks; anything else fails with
    /// `UnsupportedInterface`.
    pub fn query_capability(&mut self, capability: u32) -> (r: Result<(), StoreError>)
        requires
            old(self).refs < u32::MAX,
        ensures
            final(self).doc == old(self).doc,
            final(self).lock == old(self).lock,
            final(self).registry == old(self).registry,
            final(self).deliveries() == old(self).deliveries(),
            (capability == CAP_BASE_HANDLE || capability == CAP_DOCUMENT_STORE) ==> (r is Ok
                && final(self).refs == old(self).refs + 1),
            !(capability == CAP_BASE_HANDLE || capability == CAP_DOCUMENT_STORE) ==> (
                r matches Err(e) && e == StoreError::UnsupportedInterface
                && final(self).refs == old(self).refs),
    {
        if capability == CAP_BASE_HANDLE || capability == CAP_DOCUMENT_STORE {
            self.add_ref();
            Ok(())
        } else {
            Err(StoreError::UnsupportedInterface)
        }
    }

    /// Insertion querying is out of this store's scope.
    pub fn query_insert(&self) -> (r: Result<(), StoreError>)
        ensures
            (r matches Err(e) && e == StoreError::NotImplemented),
    {
        Err(StoreError::NotImplemented)
    }

    /// Selection querying is out of this store's scope.
    pub fn get_selection(&self) -> (r: Result<(), StoreError>)
        ensures
            (r matches Err(e) && e == StoreError::NotImplemented),
    {
        Err(StoreError::NotImplemented)
    }

    /// Selection setting is out of this store's scope.
    pub fn set_selection(&self) -> (r: Result<(), StoreError>)
        ensures
            (r matches Err(e) && e == StoreError::NotImplemented),
    {
        Err(StoreError::NotImplemented)
    }

    /// Span-wise text setting is out of this store's scope; the only
    /// supported mutation is the whole-buffer replacement.
    pub fn set_text(&self) -> (r: Result<(), StoreError>)
        ensures
            (r matches Err(e) && e == StoreError::NotImplemented),
    {
        Err(StoreError::NotImplemented)
    }

    /// Formatted text is out of this store's scope.
    pub fn get_formatted_text(&self) -> (r: Result<(), StoreError>)
        ensures
            (r matches Err(e) && e == StoreError::NotImplemented),
    {
        Err(StoreError::NotImplemented)
    }

    /// Embedded objects are out of this store's scope.
    pub fn get_embedded(&self) -> (r: Result<(), StoreError>)
        ensures
            (r matches Err(e) && e == StoreError::NotImplemented),
    {
        Err(StoreError::NotImplemented)
    }

    /// Embedded objects are out of this store's scope.
    pub fn query_insert_embedded(&self) -> (r: Result<(), StoreError>)
        ensures
            (r matches Err(e) && e == StoreError::NotImplemented),
    {
        Err(StoreError::NotImplemented)
    }

    /// Embedded objects are out of this store's scope.
    pub fn insert_embedded(&self) -> (r: Result<(), StoreError>)
        ensures
            (r matches Err(e) && e == StoreError::NotImplemented),
    {
        Err(StoreError::NotImplemented)
    }

    /// Selection-relative insertion is out of this store's scope.
    pub fn insert_text_at_selection(&self) -> (r: Result<(), StoreError>)
        ensures
            (r matches Err(e) && e == StoreError::NotImplemented),
    {
        Err(StoreError::NotImplemented)
    }

    /// Selection-relative insertion is out of this store's scope.
    pub fn insert_embedded_at_selection(&self) -> (r: Result<(), StoreError>)
        ensures
            (r matches Err(e) && e == StoreError::NotImplemented),
    {
        Err(StoreError::NotImplemented)
    }

    /// Attribute querying is out of this store's scope.
    pub fn request_supported_attrs(&self) -> (r: Result<(), StoreError>)
        ensures
            (r matches Err(e) && e == StoreError::NotImplemented),
    {
        Err(StoreError::NotImplemented)
    }

    /// Attribute querying is out of this store's scope.
    pub fn request_attrs_at_position(&self) -> (r: Result<(), StoreError>)
        ensures
            (r matches Err(e) && e == StoreError::NotImplemented),
    {
        Err(StoreError::NotImplemented)
    }

    /// Attribute-transition querying is out of this store's scope.
    pub fn request_attrs_transitioning_at_position(&self) -> (r: Result<(), StoreError>)
        ensures
            (r matches Err(e) && e == StoreError::NotImplemented),
    {
        Err(StoreError::NotImplemented)
    }

    /// Attribute-transition querying is out of this store's scope.
    pub fn find_next_attr_transition(&self) -> (r: Result<(), StoreError>)
        ensures
            (r matches Err(e) && e == StoreError::NotImplemented),
    {
        Err(StoreError::NotImplemented)
    }

    /// Attribute querying is out of this store's scope.
    pub fn retrieve_requested_attrs(&self) -> (r: Result<(), StoreError>)
        ensures
            (r matches Err(e) && e == StoreError::NotImplemented),
    {
        Err(StoreError::NotImplemented)
    }

    /// End-offset querying is out of this store's scope.
    pub fn get_end_acp(&self) -> (r: Result<(), StoreError>)
        ensures
            (r matches Err(e) && e == StoreError::NotImplemented),
    {
        Err(StoreError::NotImplemented)
    }

    /// View geometry is out of this store's scope.
    pub fn get_active_view(&self) -> (r: Result<(), StoreError>)
        ensures
            (r matches Err(e) && e == StoreError::NotImplemented),
    {
        Err(StoreError::NotImplemented)
    }

    /// View geometry is out of this store's scope.
    pub fn get_acp_from_point(&self) -> (r: Result<(), StoreError>)
        ensures
            (r matches Err(e) && e == StoreError::NotImplemented),
    {
        Err(StoreError::NotImplemented)
    }

    /// View geometry is out of this store's scope.
    pub fn get_text_ext(&self) -> (r: Result<(), StoreError>)
        ensures
            (r matches Err(e) && e == StoreError::NotImplemented),
    {
        Err(StoreError::NotImplemented)
    }

    /// View geometry is out of this store's scope.
    pub fn get_screen_ext(&self) -> (r: Result<(), StoreError>)
        ensures
            (r matches Err(e) && e == StoreError::NotImplemented),
    {
        Err(StoreError::NotImplemented)
    }

    /// Window lookup is out of this store's scope.
    pub fn get_wnd(&self) -> (r: Result<(), StoreError>)
        ensures
            (r matches Err(e) && e == StoreError::NotImplemented),
    {
        Err(StoreError::NotImplemented)
    }
}

} // verus!
