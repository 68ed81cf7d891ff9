//! A lockable shared text buffer for a host input-method subsystem.

pub mod bridge;
pub mod document;
pub mod errors;
pub mod flags;
pub mod lock;
pub mod notify;
pub mod session;
pub mod store;

pub use bridge::EditSession;
pub use document::{ReadOutcome, RunInfo, RunKind, SharedDocument, TextChangeEvent};
pub use errors::StoreError;
pub use flags::{
    flag_check, LOCK_READ, LOCK_READWRITE, LOCK_SYNC, LOCK_WRITE, MASK_TEXT_CHANGE,
    STATUS_LOADING, STATUS_READONLY, STATUS_REGIONS,
};
pub use lock::{LockGuard, LockManager, LockState};
pub use notify::{NotificationRegistry, StoreObserver};
pub use session::{PlatformAction, TSF};
pub use store::{Delivery, LockOutcome, StoreStatus, TfTextStore};
