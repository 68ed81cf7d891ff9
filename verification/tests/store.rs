use std::cell::RefCell;
use std::rc::Rc;

use doc_store::errors::StoreError;
use doc_store::flags::{
    flag_check, LOCK_READ, LOCK_READWRITE, LOCK_SYNC, MASK_TEXT_CHANGE, STATUS_LOADING,
    STATUS_READONLY, STATUS_REGIONS,
};
use doc_store::lock::lock_kind_of;
use doc_store::store::{CAP_BASE_HANDLE, CAP_DOCUMENT_STORE};
use doc_store::{LockManager, LockOutcome, LockState, RunInfo, RunKind, StoreObserver,
    TextChangeEvent, TfTextStore};

struct Recorder {
    granted: Rc<RefCell<Vec<u32>>>,
    changes: Rc<RefCell<Vec<TextChangeEvent>>>,
    grant_result: Result<(), StoreError>,
}

impl StoreObserver for Recorder {
    fn on_lock_granted(&self, flags: u32) -> Result<(), StoreError> {
        self.granted.borrow_mut().push(flags);
        self.grant_result
    }

    fn on_text_change(&self, change: TextChangeEvent) {
        self.changes.borrow_mut().push(change);
    }
}

fn recorder(
    grant_result: Result<(), StoreError>,
) -> (Recorder, Rc<RefCell<Vec<u32>>>, Rc<RefCell<Vec<TextChangeEvent>>>) {
    let granted: Rc<RefCell<Vec<u32>>> = Rc::new(RefCell::new(Vec::new()));
    let changes: Rc<RefCell<Vec<TextChangeEvent>>> = Rc::new(RefCell::new(Vec::new()));
    let rec = Recorder {
        granted: Rc::clone(&granted),
        changes: Rc::clone(&changes),
        grant_result,
    };
    (rec, granted, changes)
}

#[test]
fn subscribe_missing_handle_is_invalid_argument() {
    let mut store: TfTextStore<Recorder> = TfTextStore::new();
    assert_eq!(store.subscribe(None, MASK_TEXT_CHANGE), Err(StoreError::InvalidArgument));
}

#[test]
fn request_lock_without_observer_is_unexpected() {
    let mut store: TfTextStore<Recorder> = TfTextStore::new();
    assert_eq!(store.request_lock(LOCK_READWRITE | LOCK_SYNC), Err(StoreError::Unexpected));
}

#[test]
fn request_lock_grants_while_held_and_returns_to_unlocked() {
    let mut store: TfTextStore<Recorder> = TfTextStore::new();
    let (rec, granted, _changes) = recorder(Ok(()));
    assert_eq!(store.subscribe(Some(rec), MASK_TEXT_CHANGE), Ok(()));

    let flags: u32 = LOCK_READWRITE | LOCK_SYNC;
    assert_eq!(store.request_lock(flags), Ok(LockOutcome::Granted));
    assert_eq!(granted.borrow().as_slice(), &[flags]);

    // the store is Unlocked again before the call returns: a second
    // request is granted just the same
    assert_eq!(store.request_lock(flags), Ok(LockOutcome::Granted));
    assert_eq!(granted.borrow().len(), 2);
}

#[test]
fn callback_failure_becomes_the_requests_result() {
    let mut store: TfTextStore<Recorder> = TfTextStore::new();
    let (rec, granted, _changes) = recorder(Err(StoreError::NoLock));
    assert_eq!(store.subscribe(Some(rec), 0), Ok(()));
    assert_eq!(store.request_lock(LOCK_READ | LOCK_SYNC), Err(StoreError::NoLock));
    assert_eq!(granted.borrow().len(), 1);
    // the lock was still released on the error path
    assert!(!store.is_locked(LOCK_READ));
}

#[test]
fn read_text_without_lock_is_no_lock() {
    let store: TfTextStore<Recorder> = TfTextStore::new();
    assert_eq!(store.read_text(0, 5).err(), Some(StoreError::NoLock));
}

#[test]
fn read_text_under_read_lock_copies_min() {
    let mut store: TfTextStore<Recorder> = TfTextStore::new();
    let (rec, _granted, _changes) = recorder(Ok(()));
    assert_eq!(store.subscribe(Some(rec), 0), Ok(()));
    assert!(store.set_string(b"hello".to_vec()));

    let guard = store.try_lock(LOCK_READ).ok().unwrap();
    let short = store.read_text(0, 3).ok().unwrap();
    assert_eq!(short.copied, b"hel".to_vec());
    let long = store.read_text(0, 99).ok().unwrap();
    assert_eq!(long.copied, b"hello".to_vec());
    assert_eq!(long.copied.len(), 5);
    store.unlock(guard);
}

#[test]
fn read_text_reports_one_plain_run_and_next_offset() {
    let mut store: TfTextStore<Recorder> = TfTextStore::new();
    let (rec, _granted, _changes) = recorder(Ok(()));
    assert_eq!(store.subscribe(Some(rec), 0), Ok(()));
    assert!(store.set_string(b"hello".to_vec()));

    let guard = store.try_lock(LOCK_READWRITE).ok().unwrap();
    let out = store.read_text(1, 99).ok().unwrap();
    assert_eq!(out.copied, b"ello".to_vec());
    assert_eq!(out.run, RunInfo { kind: RunKind::Plain, count: 5 });
    assert_eq!(out.next_offset, 6);
    store.unlock(guard);
}

#[test]
fn replace_all_delivers_exactly_one_event() {
    let mut store: TfTextStore<Recorder> = TfTextStore::new();
    let (rec, _granted, changes) = recorder(Ok(()));
    assert_eq!(store.subscribe(Some(rec), MASK_TEXT_CHANGE), Ok(()));

    assert!(store.set_string(b"hello".to_vec()));
    assert_eq!(
        changes.borrow().as_slice(),
        &[TextChangeEvent { start: 0, old_end: 0, new_end: 5 }]
    );

    let guard = store.try_lock(LOCK_READ).ok().unwrap();
    let out = store.read_text(0, 5).ok().unwrap();
    assert_eq!(out.copied, b"hello".to_vec());
    assert_eq!(out.copied.len(), 5);
    store.unlock(guard);
}

#[test]
fn replace_without_matching_mask_delivers_nothing() {
    let mut store: TfTextStore<Recorder> = TfTextStore::new();
    let (rec, _granted, changes) = recorder(Ok(()));
    assert_eq!(store.subscribe(Some(rec), 0), Ok(()));
    assert!(store.set_string(b"hi".to_vec()));
    assert!(changes.borrow().is_empty());
}

#[test]
fn busy_lock_requests_fail_without_changing_state() {
    let mut store: TfTextStore<Recorder> = TfTextStore::new();
    let (rec, granted, _changes) = recorder(Ok(()));
    assert_eq!(store.subscribe(Some(rec), 0), Ok(()));

    let guard = store.try_lock(LOCK_READ).ok().unwrap();
    assert_eq!(store.request_lock(LOCK_READ | LOCK_SYNC), Ok(LockOutcome::WouldBlockSync));
    assert_eq!(store.request_lock(LOCK_READ), Ok(LockOutcome::AsyncUnsupported));
    assert!(granted.borrow().is_empty());
    // the held lock survived both refusals
    assert!(store.is_locked(LOCK_READ));
    store.unlock(guard);

    assert_eq!(store.request_lock(LOCK_READ | LOCK_SYNC), Ok(LockOutcome::Granted));
}

#[test]
fn unsubscribe_with_nothing_registered_is_invalid_argument() {
    let mut store: TfTextStore<Recorder> = TfTextStore::new();
    assert_eq!(store.unsubscribe(), Err(StoreError::InvalidArgument));
}

#[test]
fn unsubscribed_observer_hears_nothing_more() {
    let mut store: TfTextStore<Recorder> = TfTextStore::new();
    let (rec, _granted, changes) = recorder(Ok(()));
    assert_eq!(store.subscribe(Some(rec), MASK_TEXT_CHANGE), Ok(()));
    assert_eq!(store.unsubscribe(), Ok(()));

    assert!(store.set_string(b"later".to_vec()));
    assert!(changes.borrow().is_empty());
}

#[test]
fn resubscribe_replaces_observer_and_mask() {
    let mut store: TfTextStore<Recorder> = TfTextStore::new();
    let (first, _g1, first_changes) = recorder(Ok(()));
    let (second, _g2, second_changes) = recorder(Ok(()));
    assert_eq!(store.subscribe(Some(first), MASK_TEXT_CHANGE), Ok(()));
    assert_eq!(store.subscribe(Some(second), MASK_TEXT_CHANGE), Ok(()));

    assert!(store.set_string(b"x".to_vec()));
    assert!(first_changes.borrow().is_empty());
    assert_eq!(second_changes.borrow().len(), 1);
}

#[test]
fn end_to_end_two_replacements_then_read() {
    let mut store: TfTextStore<Recorder> = TfTextStore::new();
    let (obs_a, _granted, changes) = recorder(Ok(()));
    assert_eq!(store.subscribe(Some(obs_a), MASK_TEXT_CHANGE), Ok(()));

    assert!(store.set_string(b"ab".to_vec()));
    assert_eq!(
        changes.borrow().last().copied(),
        Some(TextChangeEvent { start: 0, old_end: 0, new_end: 2 })
    );

    assert!(store.set_string(b"abcd".to_vec()));
    assert_eq!(
        changes.borrow().last().copied(),
        Some(TextChangeEvent { start: 0, old_end: 2, new_end: 4 })
    );
    assert_eq!(changes.borrow().len(), 2);

    let guard = store.try_lock(LOCK_READ).ok().unwrap();
    let out = store.read_text(0, 4).ok().unwrap();
    assert_eq!(out.copied, b"abcd".to_vec());
    assert_eq!(out.copied.len(), 4);
    store.unlock(guard);
}

#[test]
fn set_string_fails_while_locked() {
    let mut store: TfTextStore<Recorder> = TfTextStore::new();
    let (rec, _granted, _changes) = recorder(Ok(()));
    assert_eq!(store.subscribe(Some(rec), 0), Ok(()));
    assert!(store.set_string(b"kept".to_vec()));

    let guard = store.try_lock(LOCK_READ).ok().unwrap();
    assert!(!store.set_string(b"lost".to_vec()));
    let out = store.read_text(0, 99).ok().unwrap();
    assert_eq!(out.copied, b"kept".to_vec());
    store.unlock(guard);
}

#[test]
fn at_most_one_lock_at_a_time() {
    let mut mgr = LockManager::new();
    let guard = mgr.try_acquire(LOCK_READ).ok().unwrap();
    assert!(mgr.try_acquire(LOCK_READ).is_err());
    assert!(mgr.try_acquire(LOCK_READWRITE).is_err());
    mgr.release(guard);
    let again = mgr.try_acquire(LOCK_READWRITE).ok().unwrap();
    assert!(mgr.is_locked(LOCK_READ));
    mgr.release(again);
    assert!(!mgr.is_locked(LOCK_READ));
}

#[test]
fn no_lock_failure_is_total_for_any_offsets() {
    let store: TfTextStore<Recorder> = TfTextStore::new();
    assert_eq!(store.read_text(usize::MAX, usize::MAX).err(), Some(StoreError::NoLock));
}

#[test]
fn accessless_flags_take_no_lock_and_record_nothing() {
    let mut mgr = LockManager::new();
    let empty_grant = mgr.try_acquire(LOCK_SYNC).ok().unwrap();
    assert!(!mgr.is_locked(0));
    // nothing was actually held, so a real request still succeeds
    let guard = mgr.try_acquire(LOCK_READ).ok().unwrap();
    assert!(mgr.is_locked(LOCK_READ));
    mgr.release(guard);
    mgr.release(empty_grant);
    assert!(!mgr.is_locked(LOCK_READ));
}

#[test]
fn lock_kind_classification() {
    assert_eq!(lock_kind_of(LOCK_READWRITE), LockState::ReadWriteLocked);
    assert_eq!(lock_kind_of(LOCK_READWRITE | LOCK_SYNC), LockState::ReadWriteLocked);
    assert_eq!(lock_kind_of(LOCK_READ), LockState::ReadLocked);
    assert_eq!(lock_kind_of(LOCK_SYNC), LockState::Unlocked);
    assert_eq!(lock_kind_of(0), LockState::Unlocked);
}

#[test]
fn flag_check_wants_every_bit() {
    assert!(flag_check(LOCK_READWRITE, LOCK_READ));
    assert!(!flag_check(LOCK_READ, LOCK_READWRITE));
    assert!(flag_check(0, 0));
    assert!(flag_check(LOCK_READ | LOCK_SYNC, LOCK_SYNC));
}

#[test]
fn status_reports_static_capabilities() {
    let store: TfTextStore<Recorder> = TfTextStore::new();
    let status = store.get_status();
    assert_eq!(status.dynamic_flags, STATUS_READONLY | STATUS_LOADING);
    assert_eq!(status.static_flags, STATUS_REGIONS);
}

#[test]
fn reference_count_convention() {
    let mut store: TfTextStore<Recorder> = TfTextStore::new();
    assert_eq!(store.add_ref(), 2);
    assert_eq!(store.refs, 2);
    assert_eq!(store.release(), 1);
    assert_eq!(store.release(), 0);
    assert_eq!(store.get_trust_level(), 0);
}

#[test]
fn capability_query_answers_for_the_document_store() {
    let mut store: TfTextStore<Recorder> = TfTextStore::new();
    assert_eq!(store.query_capability(CAP_BASE_HANDLE), Ok(()));
    assert_eq!(store.query_capability(CAP_DOCUMENT_STORE), Ok(()));
    assert_eq!(store.refs, 3);
    assert_eq!(store.query_capability(0xdead), Err(StoreError::UnsupportedInterface));
    assert_eq!(store.refs, 3);
}

#[test]
fn rich_text_operations_are_not_implemented() {
    let store: TfTextStore<Recorder> = TfTextStore::new();
    let nope = Err(StoreError::NotImplemented);
    assert_eq!(store.query_insert(), nope);
    assert_eq!(store.get_selection(), nope);
    assert_eq!(store.set_selection(), nope);
    assert_eq!(store.set_text(), nope);
    assert_eq!(store.get_formatted_text(), nope);
    assert_eq!(store.get_embedded(), nope);
    assert_eq!(store.query_insert_embedded(), nope);
    assert_eq!(store.insert_embedded(), nope);
    assert_eq!(store.insert_text_at_selection(), nope);
    assert_eq!(store.insert_embedded_at_selection(), nope);
    assert_eq!(store.request_supported_attrs(), nope);
    assert_eq!(store.request_attrs_at_position(), nope);
    assert_eq!(store.request_attrs_transitioning_at_position(), nope);
    assert_eq!(store.find_next_attr_transition(), nope);
    assert_eq!(store.retrieve_requested_attrs(), nope);
    assert_eq!(store.get_end_acp(), nope);
    assert_eq!(store.get_active_view(), nope);
    assert_eq!(store.get_acp_from_point(), nope);
    assert_eq!(store.get_text_ext(), nope);
    assert_eq!(store.get_screen_ext(), nope);
    assert_eq!(store.get_wnd(), nope);
}
