//! The mechanism-OID-set handle: an opaque native handle collection with
//! the shared exactly-once ownership discipline.

use vstd::prelude::*;

use crate::handle::{spec_take_for_release, OpaqueHandle};

verus! {

/// Raw value passed for "no desired mechanism set": the null set handle,
/// never an empty-but-allocated set.
pub const GSS_C_NO_OID_SET: u64 = 0;

/// An owned mechanism-OID-set handle.
#[derive(Debug)]
pub struct OidSet {
    handle: OpaqueHandle,
}

impl View for OidSet {
    type V = u64;

    closed spec fn view(&self) -> u64 {
        self.handle@
    }
}

impl OidSet {
    /// Take ownership of a set handle the native library produced.
    pub fn from_c(raw: u64) -> (s: OidSet)
        ensures
            s@ == raw,
    {
        OidSet { handle: OpaqueHandle::adopt(raw) }
    }

    /// Borrow the raw handle for passing into a native call; ownership
    /// does not move.
    pub fn to_c(&self) -> (r: u64)
        ensures
            r == self@,
    {
        self.handle.raw()
    }

    /// Surrender the handle for the native set-release call, at most
    /// once; afterwards the set is in the released state.
    pub fn release(&mut self) -> (r: Option<u64>)
        ensures
            final(self)@ == 0,
            r == spec_take_for_release(old(self)@).0,
    {
        self.handle.take_for_release()
    }
}

} // verus!
