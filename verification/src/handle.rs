//! The opaque-handle ownership pattern, written once and shared by the
//! credential, principal-name and mechanism-set wrappers.
//!
//! A handle is the native library's pointer value, carried here as a
//! plain integer with `0` for the null handle.  An `OpaqueHandle` owns
//! exactly one such value: it is not copyable, and the one teardown
//! operation surrenders the value at most once, after which the owner is
//! in the released (null) state for good.

use vstd::prelude::*;

verus! {

/// One destruction step over the raw state: what must be passed to the
/// native release call (nothing for a null handle), and the state the
/// owner is left in (always released).
pub open spec fn spec_take_for_release(raw: u64) -> (Option<u64>, u64) {
    if raw == 0 {
        (None, 0)
    } else {
        (Some(raw), 0)
    }
}

/// A non-copyable owner of one native handle.  `0` is the null handle:
/// either nothing was ever adopted, or the handle has been surrendered
/// for release already.
#[derive(Debug)]
pub struct OpaqueHandle {
    raw: u64,
}

impl View for OpaqueHandle {
    type V = u64;

    closed spec fn view(&self) -> u64 {
        self.raw
    }
}

impl OpaqueHandle {
    /// The owner of a raw handle value, as a spec-level constructor.
    pub closed spec fn spec_adopt(raw: u64) -> OpaqueHandle {
        OpaqueHandle { raw }
    }

    /// Whether this owner holds nothing: never adopted, adopted null, or
    /// already released.  The terminal state of every owner.
    pub open spec fn is_released(&self) -> bool {
        self@ == 0
    }

    /// Take ownership of a handle of unverified provenance.  The caller
    /// must not retain or release the raw value elsewhere afterward.
    pub fn adopt(raw: u64) -> (h: OpaqueHandle)
        ensures
            h == OpaqueHandle::spec_adopt(raw),
            h@ == raw,
    {
        OpaqueHandle { raw }
    }

    /// An owner already in the released state.
    pub fn null() -> (h: OpaqueHandle)
        ensures
            h == OpaqueHandle::spec_adopt(0),
            h.is_released(),
    {
        OpaqueHandle { raw: 0 }
    }

    /// Borrow the raw value for passing into a native call.  Ownership
    /// does not move: the value must not be released through this copy.
    pub fn raw(&self) -> (r: u64)
        ensures
            r == self@,
    {
        self.raw
    }

    /// Whether this owner holds nothing.
    pub fn is_null(&self) -> (r: bool)
        ensures
            r == self.is_released(),
    {
        self.raw == 0
    }

    /// Surrender the handle for the native release call.  Yields the
    /// handle the first time, when one is held, and leaves the owner
    /// released, so a later trigger finds nothing to release; a null
    /// handle yields nothing, since there is nothing to tear down.
    pub fn take_for_release(&mut self) -> (r: Option<u64>)
        ensures
            final(self).is_released(),
            r == spec_take_for_release(old(self)@).0,
            final(self)@ == spec_take_for_release(old(self)@).1,
    {
        let raw = self.raw;
        self.raw = 0;
        if raw == 0 {
            None
        } else {
            Some(raw)
        }
    }
}

/// The raw state determines the owner outright: owners over equal raw
/// values are the same value, so anything stated of the one holds of the
/// other.
pub proof fn lemma_handle_determined_by_state(a: OpaqueHandle, b: OpaqueHandle)
    requires
        a@ == b@,
    ensures
        a == b,
{
}

/// The spec-level constructor owns exactly the raw value it was given.
pub proof fn lemma_spec_adopt_state(raw: u64)
    ensures
        OpaqueHandle::spec_adopt(raw)@ == raw,
{
}

/// A second destruction trigger on the same owner surrenders nothing:
/// whatever the starting state, after one destruction step the next step
/// yields no handle, so the native release runs at most once per handle.
pub proof fn lemma_release_at_most_once(raw: u64)
    ensures
        spec_take_for_release(spec_take_for_release(raw).1).0 is None,
{
}

/// Destruction always leaves the null state — the very state null
/// adoption starts in — and a destruction trigger on that state
/// surrenders nothing: an owner adopted null has nothing to release,
/// exactly like one already torn down.
pub proof fn lemma_null_adoption_is_released(raw: u64)
    ensures
        spec_take_for_release(raw).1 == 0,
        spec_take_for_release(0).0 is None,
{
}

} // verus!
