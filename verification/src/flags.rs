use vstd::prelude::*;

verus! {

/// Lock-request flag: the caller asks for a synchronous grant.
pub const LOCK_SYNC: u32 = 0x1;
/// Lock-request flag: read access to the document.
pub const LOCK_READ: u32 = 0x2;
/// Lock-request flag: write access to the document.
pub const LOCK_WRITE: u32 = 0x4;
/// Read and write access together; implies that reads are also permitted.
pub const LOCK_READWRITE: u32 = LOCK_READ | LOCK_WRITE;

/// Interest-mask bit: the observer wants to hear of text changes.
pub const MASK_TEXT_CHANGE: u32 = 0x1;

/// Dynamic status flag: the document is read-only.
pub const STATUS_READONLY: u32 = 0x1;
/// Dynamic status flag: the document is still loading.
pub const STATUS_LOADING: u32 = 0x2;
/// Static status flag: the store reports region support.
pub const STATUS_REGIONS: u32 = 0x2;

/// Whether every bit of `flag` is set in `value`.
pub open spec fn spec_flag_check(value: u32, flag: u32) -> bool {
    value & flag == flag
}

/// Whether every bit of `flag` is set in `value`.
#[verifier::when_used_as_spec(spec_flag_check)]
pub fn flag_check(value: u32, flag: u32) -> (r: bool)
    ensures
        r == spec_flag_check(value, flag),
{
    (value & flag) == flag
}

} // verus!
