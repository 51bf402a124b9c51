//! The native status vocabulary: major/minor status words and the
//! constants of the C calling convention, reproduced bit for bit.

use vstd::prelude::*;

verus! {

/// The distinguished "complete" major status: a call succeeded outright.
pub const GSS_S_COMPLETE: u32 = 0;

/// Routine error "general failure", used for a usage code this layer
/// does not recognize (routine error 13 in the high half of the word).
pub const GSS_S_FAILURE: u32 = 0x000d0000;

/// The calling-error and routine-error bytes of a major status word.
/// Supplementary information bits (the low half) are advisory, not fatal.
pub const GSS_STATUS_ERROR_MASK: u32 = 0xffff0000;

/// "No expiry requested": the sentinel lifetime of the native vocabulary.
pub const GSS_C_INDEFINITE: u32 = 0xffffffff;

/// A failed native call, as the library reported it: the major status
/// bit flags and the mechanism-specific minor status, both preserved.
#[derive(Clone, Copy, Debug, PartialEq, Eq, Structural)]
pub struct Error {
    pub major: u32,
    pub minor: u32,
}

/// Whether a major status word reports a fatal error: any calling-error
/// or routine-error bit is set.  Supplementary bits alone are not fatal.
pub open spec fn status_is_error(major: u32) -> bool {
    major & GSS_STATUS_ERROR_MASK != 0
}

/// The error portion of a major status word; nonzero exactly when the
/// call failed.
pub fn gss_error(major: u32) -> (r: u32)
    ensures
        r == major & GSS_STATUS_ERROR_MASK,
        (r != 0) == status_is_error(major),
{
    major & GSS_STATUS_ERROR_MASK
}

} // verus!
