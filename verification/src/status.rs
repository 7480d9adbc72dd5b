//! Status codes as the framework reports them.

use vstd::prelude::*;

verus! {

/// A status code: a signed 32-bit value whose sign bit marks failure.
pub type NtStatus = i32;

/// The status of an operation that completed without anything to report.
pub const STATUS_SUCCESS: NtStatus = 0i32;

/// A status counts as a success when it is a success code or an
/// informational code, that is, when it is not negative. Warnings and errors
/// have the sign bit set.
pub open spec fn is_success(status: NtStatus) -> bool {
    status >= 0
}

/// Tells whether `status` reports success.
pub fn nt_success(status: NtStatus) -> (ok: bool)
    ensures
        ok == is_success(status),
{
    status >= 0
}

} // verus!
