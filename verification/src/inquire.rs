//! The multi-field inquire protocol and its partial-failure rule.
//!
//! The native introspection call takes up to four output slots (name,
//! lifetime, usage, mechanisms); any slot may be left out to skip that
//! output and the ownership obligation that comes with it.  The call
//! reports one overall status, and it may fail after some slots were
//! already filled in program order.  The rule enforced here: on any
//! failure, every requested owned-handle slot that was filled (name,
//! mechanisms) is listed for release before the error propagates; the
//! plain-value slots (lifetime, usage) own nothing and need no cleanup.
//! No owned handle is ever both invisible to the caller and unreleased.

use vstd::prelude::*;

use crate::status::{gss_error, status_is_error, Error};

verus! {

/// One optional output of the native call: not requested at all,
/// requested but not (yet) filled, or filled with the produced value.
#[derive(Debug)]
pub enum Slot<T> {
    Absent,
    Pending,
    Filled(T),
}

impl<T> Slot<T> {
    /// Whether the slot was requested and the call has not filled it.
    pub open spec fn is_pending(self) -> bool {
        self is Pending
    }

    /// Whether the call filled the slot.
    pub open spec fn is_filled(self) -> bool {
        self is Filled
    }

    /// The value the call produced.
    pub open spec fn value(self) -> T
        recommends
            self is Filled,
    {
        self->0
    }

    /// The produced value, if any was produced.
    pub open spec fn as_option(self) -> Option<T> {
        match self {
            Slot::Absent => None,
            Slot::Pending => None,
            Slot::Filled(v) => Some(v),
        }
    }

    /// Drain the slot into the value it holds, if any.
    pub fn into_option(self) -> (r: Option<T>)
        ensures
            r == self.as_option(),
    {
        match self {
            Slot::Absent => None,
            Slot::Pending => None,
            Slot::Filled(v) => Some(v),
        }
    }
}

/// One inquire exchange: which of the four outputs are requested, and,
/// once the unverified shell has recorded the native call's writes, which
/// were filled and with what.  The name and mechanisms slots carry owned
/// handles; lifetime and usage carry plain values.
#[derive(Debug)]
pub struct InquireRequest {
    pub name: Slot<u64>,
    pub lifetime: Slot<u32>,
    pub usage: Slot<i32>,
    pub mechanisms: Slot<u64>,
}

/// The outputs of a successful inquire call: the value of every slot that
/// was requested (and therefore filled), in raw form.
#[derive(Debug)]
pub struct InquireReply {
    pub name: Option<u64>,
    pub lifetime: Option<u32>,
    pub usage: Option<i32>,
    pub mechanisms: Option<u64>,
}

/// A failed inquire exchange: the error to propagate, and the owned
/// handles the native call produced before failing, each of which the
/// caller must now pass to its native release call exactly once.
#[derive(Debug)]
pub struct InquireFailure {
    pub error: Error,
    pub release_name: Option<u64>,
    pub release_mechanisms: Option<u64>,
}

impl InquireRequest {
    /// A request for none of the four outputs.
    pub open spec fn spec_empty() -> InquireRequest {
        InquireRequest {
            name: Slot::Absent,
            lifetime: Slot::Absent,
            usage: Slot::Absent,
            mechanisms: Slot::Absent,
        }
    }

    /// A request for none of the four outputs, to be narrowed to the
    /// slots one operation needs.
    pub fn empty() -> (r: InquireRequest)
        ensures
            r == InquireRequest::spec_empty(),
    {
        InquireRequest {
            name: Slot::Absent,
            lifetime: Slot::Absent,
            usage: Slot::Absent,
            mechanisms: Slot::Absent,
        }
    }

    /// Record the name handle the native call wrote into the requested
    /// name slot.
    pub fn fill_name(&mut self, raw: u64)
        requires
            old(self).name.is_pending(),
        ensures
            *final(self) == (InquireRequest { name: Slot::Filled(raw), ..*old(self) }),
    {
        self.name = Slot::Filled(raw);
    }

    /// Record the lifetime, in whole seconds, the native call wrote into
    /// the requested lifetime slot.
    pub fn fill_lifetime(&mut self, secs: u32)
        requires
            old(self).lifetime.is_pending(),
        ensures
            *final(self) == (InquireRequest { lifetime: Slot::Filled(secs), ..*old(self) }),
    {
        self.lifetime = Slot::Filled(secs);
    }

    /// Record the raw usage code the native call wrote into the requested
    /// usage slot.
    pub fn fill_usage(&mut self, code: i32)
        requires
            old(self).usage.is_pending(),
        ensures
            *final(self) == (InquireRequest { usage: Slot::Filled(code), ..*old(self) }),
    {
        self.usage = Slot::Filled(code);
    }

    /// Record the mechanism-set handle the native call wrote into the
    /// requested mechanisms slot.
    pub fn fill_mechanisms(&mut self, raw: u64)
        requires
            old(self).mechanisms.is_pending(),
        ensures
            *final(self) == (InquireRequest { mechanisms: Slot::Filled(raw), ..*old(self) }),
    {
        self.mechanisms = Slot::Filled(raw);
    }

    /// What settling the exchange yields: the filled values on success,
    /// or the error with the owned filled slots listed for release.
    pub open spec fn spec_finish(self, major: u32, minor: u32) -> Result<
        InquireReply,
        InquireFailure,
    > {
        if status_is_error(major) {
            Err(InquireFailure {
                error: Error { major, minor },
                release_name: self.name.as_option(),
                release_mechanisms: self.mechanisms.as_option(),
            })
        } else {
            Ok(InquireReply {
                name: self.name.as_option(),
                lifetime: self.lifetime.as_option(),
                usage: self.usage.as_option(),
                mechanisms: self.mechanisms.as_option(),
            })
        }
    }

    /// Settle the exchange against the status the native call reported.
    /// Succeeds exactly when the status carries no error bits; on failure
    /// the owned handles already produced are handed back for release, so
    /// nothing leaks and nothing escapes in the error.  A successful
    /// status is only meaningful when the call filled every slot it was
    /// asked for, which the native contract guarantees.
    pub fn finish(self, major: u32, minor: u32) -> (r: Result<InquireReply, InquireFailure>)
        requires
            !status_is_error(major) ==> !self.name.is_pending() && !self.lifetime.is_pending()
                && !self.usage.is_pending() && !self.mechanisms.is_pending(),
        ensures
            r == self.spec_finish(major, minor),
            (r is Ok) == !status_is_error(major),
    {
        if gss_error(major) > 0 {
            Err(InquireFailure {
                error: Error { major, minor },
                release_name: self.name.into_option(),
                release_mechanisms: self.mechanisms.into_option(),
            })
        } else {
            Ok(InquireReply {
                name: self.name.into_option(),
                lifetime: self.lifetime.into_option(),
                usage: self.usage.into_option(),
                mechanisms: self.mechanisms.into_option(),
            })
        }
    }
}

/// No owned handle is lost when an exchange settles: every handle the
/// native call produced in an owned slot appears either in the successful
/// reply, owned by the caller from then on, or among the release
/// obligations of the failure — never in neither, whatever the status.
pub proof fn lemma_owned_handles_accounted(ifo: InquireRequest, major: u32, minor: u32)
    ensures
        ifo.name matches Slot::Filled(h) ==> (match ifo.spec_finish(major, minor) {
            Ok(reply) => reply.name == Some(h),
            Err(f) => f.release_name == Some(h),
        }),
        ifo.mechanisms matches Slot::Filled(h) ==> (match ifo.spec_finish(major, minor) {
            Ok(reply) => reply.mechanisms == Some(h),
            Err(f) => f.release_mechanisms == Some(h),
        }),
{
}

/// A slot the call never filled imposes no release obligation: if the
/// exchange fails while an owned slot is still pending or was never
/// requested, that slot contributes nothing to the cleanup list.
pub proof fn lemma_unfilled_slots_need_no_release(ifo: InquireRequest, major: u32, minor: u32)
    requires
        status_is_error(major),
    ensures
        !ifo.name.is_filled() ==> ifo.spec_finish(major, minor)->Err_0.release_name is None,
        !ifo.mechanisms.is_filled() ==> ifo.spec_finish(
            major,
            minor,
        )->Err_0.release_mechanisms is None,
{
}

} // verus!
