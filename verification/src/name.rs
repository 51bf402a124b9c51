//! The principal-name handle: an opaque native handle with the shared
//! exactly-once ownership discipline.  What a name means is the native
//! library's business; this layer only owns and surrenders the handle.

use vstd::prelude::*;

use crate::handle::{spec_take_for_release, OpaqueHandle};

verus! {

/// An owned principal-name handle.
#[derive(Debug)]
pub struct Name {
    handle: OpaqueHandle,
}

impl View for Name {
    type V = u64;

    closed spec fn view(&self) -> u64 {
        self.handle@
    }
}

impl Name {
    /// Take ownership of a name handle the native library produced.
    pub fn from_c(raw: u64) -> (n: Name)
        ensures
            n@ == raw,
    {
        Name { handle: OpaqueHandle::adopt(raw) }
    }

    /// Borrow the raw handle for passing into a native call; ownership
    /// does not move.
    pub fn to_c(&self) -> (r: u64)
        ensures
            r == self@,
    {
        self.handle.raw()
    }

    /// Surrender the handle for the native name-release call, at most
    /// once; afterwards the name is in the released state.
    pub fn release(&mut self) -> (r: Option<u64>)
        ensures
            final(self)@ == 0,
            r == spec_take_for_release(old(self)@).0,
    {
        self.handle.take_for_release()
    }
}

} // verus!
