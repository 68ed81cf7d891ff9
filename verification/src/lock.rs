use vstd::prelude::*;

use crate::flags::{flag_check, spec_flag_check, LOCK_READ, LOCK_READWRITE};

verus! {

/// The mutual-exclusion state over the shared document.
///
/// Exactly one variant holds at any instant; the only transitions are
/// `Unlocked -> {ReadLocked, ReadWriteLocked} -> Unlocked`. A ReadWrite
/// lock also permits reads.
#[derive(Clone, Copy, PartialEq, Eq, Debug, Structural)]
pub enum LockState {
    Unlocked,
    ReadLocked,
    ReadWriteLocked,
}

/// The lock kind that raw request flags ask for; ReadWrite takes
/// precedence over Read, and flags with neither access bit ask for nothing.
pub open spec fn spec_lock_kind(flags: u32) -> LockState {
    if spec_flag_check(flags, LOCK_READWRITE) {
        LockState::ReadWriteLocked
    } else if spec_flag_check(flags, LOCK_READ) {
        LockState::ReadLocked
    } else {
        LockState::Unlocked
    }
}

/// Classifies raw request flags into the lock kind they ask for.
pub fn lock_kind_of(flags: u32) -> (kind: LockState)
    ensures
        kind == spec_lock_kind(flags),
{
    if flag_check(flags, LOCK_READWRITE) {
        LockState::ReadWriteLocked
    } else if flag_check(flags, LOCK_READ) {
        LockState::ReadLocked
    } else {
        LockState::Unlocked
    }
}

/// Owns the mutual-exclusion state over the document: the current lock
/// kind paired with the raw flags value that produced it.
pub struct LockManager {
    pub state: LockState,
    pub flags: u32,
}

/// A scoped token for one granted lock. It cannot be copied, and giving
/// it back to [`LockManager::release`] is the only path that clears the
/// lock state, so an owned grant cannot leak a held lock.
pub struct LockGuard {
    acquired: Ghost<u32>,
}

impl LockGuard {
    /// The raw flags value the lock was granted with.
    pub closed spec fn flags(&self) -> u32 {
        self.acquired@
    }
}

/// Whether an acquisition request on `m` is granted: only the Unlocked
/// state grants, whatever flags the request carries.
pub open spec fn spec_grants(m: LockManager, flags: u32) -> bool {
    m.state is Unlocked
}

/// The manager after a granted acquisition with `flags`. Flags with
/// neither access bit take no lock, and then nothing is recorded: an
/// unlocked manager never keeps stale request flags around.
pub open spec fn spec_after_acquire(m: LockManager, flags: u32) -> LockManager {
    if spec_lock_kind(flags) is Unlocked {
        LockManager { state: LockState::Unlocked, flags: 0 }
    } else {
        LockManager { state: spec_lock_kind(flags), flags }
    }
}

/// Whether a lock is held whose flags are compatible with `flags`.
pub open spec fn spec_is_locked(m: LockManager, flags: u32) -> bool {
    !(m.state is Unlocked) && spec_flag_check(m.flags, flags)
}

impl LockManager {
    /// A fresh manager: nothing is locked.
    pub fn new() -> (m: LockManager)
        ensures
            m.state is Unlocked,
            m.flags == 0,
    {
        LockManager { state: LockState::Unlocked, flags: 0 }
    }

    /// Whether any lock is currently held.
    pub fn is_held(&self) -> (held: bool)
        ensures
            held == !(self.state is Unlocked),
    {
        self.state != LockState::Unlocked
    }

    /// Whether a lock compatible with `flags` is currently held.
    pub fn is_locked(&self, flags: u32) -> (locked: bool)
        ensures
            locked == spec_is_locked(*self, flags),
    {
        self.state != LockState::Unlocked && flag_check(self.flags, flags)
    }

    /// Acquires the lock that `flags` asks for, succeeding only from the
    /// Unlocked state; a request made while any lock is held is refused
    /// and leaves the state untouched. Flags with neither access bit
    /// take no lock: the grant then guards nothing and the state stays
    /// Unlocked with no flags recorded.
    pub fn try_acquire(&mut self, flags: u32) -> (r: Result<LockGuard, ()>)
        ensures
            r is Ok <==> spec_grants(*old(self), flags),
            r matches Ok(g) ==> *final(self) == spec_after_acquire(*old(self), flags)
                && g.flags() == flags,
            r is Err ==> *final(self) == *old(self),
    {
        if self.state == LockState::Unlocked {
            let kind = lock_kind_of(flags);
            self.state = kind;
            self.flags = if kind == LockState::Unlocked {
                0
            } else {
                flags
            };
            Ok(LockGuard { acquired: Ghost(flags) })
        } else {
            Err(())
        }
    }

    /// Gives a granted token back, returning the state to Unlocked. This
    /// is the only way the lock state is ever cleared.
    pub fn release(&mut self, _guard: LockGuard)
        ensures
            final(self).state is Unlocked,
            final(self).flags == 0,
    {
        self.state = LockState::Unlocked;
        self.flags = 0;
    }
}

/// At most one lock is held at any instant: a request is granted only
/// from the Unlocked state, so while a granted Read or ReadWrite lock
/// lasts, every further request is refused, whatever flags it carries.
pub proof fn lemma_at_most_one_lock(m: LockManager, flags: u32, others: Seq<u32>)
    requires
        spec_grants(m, flags),
        !(spec_after_acquire(m, flags).state is Unlocked),
    ensures
        forall|i: int|
            0 <= i < others.len() ==> !spec_grants(spec_after_acquire(m, flags), others[i]),
{
}

} // verus!
