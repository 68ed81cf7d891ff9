use vstd::prelude::*;

use crate::document::TextChangeEvent;
use crate::errors::StoreError;
use crate::flags::{flag_check, spec_flag_check, MASK_TEXT_CHANGE};

verus! {

/// The single external listener a host registers with the store.
///
/// The store implements no observer itself: the host brings its own, and
/// nothing is promised of what the callbacks do. A lock-granted callback
/// may fail, and that failure becomes the lock request's own result.
pub trait StoreObserver {
    /// Called synchronously while a requested lock is held.
    fn on_lock_granted(&self, flags: u32) -> Result<(), StoreError>;

    /// Called after a successful mutation, once its write lock has
    /// already been released; the result of the handler is not consulted.
    fn on_text_change(&self, change: TextChangeEvent);
}

/// Owns the single observer registration and its interest mask.
/// At most one observer is registered at any time; registering again
/// silently replaces the stored observer and mask.
pub struct NotificationRegistry<O> {
    pub observer: Option<O>,
    pub mask: u32,
}

/// Whether a text change is delivered: an observer must be registered
/// and its interest mask must include the text-change bit.
pub open spec fn spec_delivers_text_change(has_observer: bool, mask: u32) -> bool {
    has_observer && spec_flag_check(mask, MASK_TEXT_CHANGE)
}

impl<O: StoreObserver> NotificationRegistry<O> {
    /// An empty registration slot with a cleared mask.
    pub fn new() -> (reg: NotificationRegistry<O>)
        ensures
            reg.observer is None,
            reg.mask == 0,
    {
        NotificationRegistry { observer: None, mask: 0 }
    }

    /// Stores `observer` with its interest mask. A missing handle is
    /// refused; a repeated call replaces whatever was stored before and
    /// is never rejected.
    pub fn subscribe(&mut self, observer: Option<O>, mask: u32) -> (r: Result<(), StoreError>)
        ensures
            observer is None ==> (r matches Err(e) && e == StoreError::InvalidArgument
                && *final(self) == *old(self)),
            observer is Some ==> r is Ok && final(self).observer == observer
                && final(self).mask == mask,
    {
        match observer {
            None => Err(StoreError::InvalidArgument),
            Some(o) => {
                self.observer = Some(o);
                self.mask = mask;
                Ok(())
            },
        }
    }

    /// Clears the registration and its mask; fails with `InvalidArgument`
    /// if nothing is currently registered.
    pub fn unsubscribe(&mut self) -> (r: Result<(), StoreError>)
        ensures
            old(self).observer is Some ==> r is Ok && final(self).observer is None
                && final(self).mask == 0,
            old(self).observer is None ==> (r matches Err(e) && e == StoreError::InvalidArgument
                && *final(self) == *old(self)),
    {
        if self.observer.is_some() {
            self.observer = None;
            self.mask = 0;
            Ok(())
        } else {
            Err(StoreError::InvalidArgument)
        }
    }

    /// Hands `change` to the observer if one is registered and its mask
    /// includes the text-change bit; says whether it was delivered.
    pub fn notify_text_change(&self, change: TextChangeEvent) -> (delivered: bool)
        ensures
            delivered == spec_delivers_text_change(self.observer is Some, self.mask),
    {
        if flag_check(self.mask, MASK_TEXT_CHANGE) {
            match &self.observer {
                Some(o) => {
                    o.on_text_change(change);
                    true
                },
                None => false,
            }
        } else {
            false
        }
    }

    /// Invokes the registered observer's lock-granted callback and hands
    /// its result back; the caller holds the granted lock across this
    /// call and decides what the result means.
    pub fn notify_lock_granted(&self, flags: u32) -> (r: Result<(), StoreError>)
        requires
            self.observer is Some,
    {
        match &self.observer {
            Some(o) => o.on_lock_granted(flags),
            None => Ok(()),
        }
    }
}

/// After a successful unsubscribe nothing is registered, and a registry
/// with no observer delivers no event, whatever interest mask it holds:
/// later replacements say nothing to the former observer.
pub proof fn lemma_no_delivery_after_unsubscribe<O>(reg: NotificationRegistry<O>)
    requires
        reg.observer is None,
    ensures
        !spec_delivers_text_change(reg.observer is Some, reg.mask),
{
}

} // verus!
