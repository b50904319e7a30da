use vstd::prelude::*;

verus! {

/// Status code: the operation completed and its outputs are valid.
pub const CODE_OK: i32 = 0;

/// Status code: a required handle argument was null (or does not refer to a
/// live object).
pub const CODE_NULL_ARG: i32 = 1;

/// Status code: operation-specific "not found / invalid / out of range"
/// condition (empty geometry, index beyond a computed range, invalid
/// rotation target).
pub const CODE_INVALID: i32 = 2;

/// Reserved sentinel returned by the failure barrier when an internal fault
/// was intercepted. Never produced by any verified operation of this crate.
pub const CODE_FAULT: i32 = -1;

} // verus!
