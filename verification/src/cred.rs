//! The credential: acquisition, adoption, teardown, and the five
//! introspection operations built on the inquire protocol.
//!
//! Every function here is the decision half of one native call: it
//! encodes the parameters the call takes, or decodes the outcome the call
//! produced, and its contract says exactly which typed result or which
//! error-plus-cleanup comes back for every raw outcome.  The unverified
//! shell between these halves only moves raw values.

use vstd::prelude::*;

use crate::handle::{
    lemma_handle_determined_by_state, lemma_spec_adopt_state, spec_take_for_release, OpaqueHandle,
};
use crate::inquire::{InquireFailure, InquireRequest, Slot};
use crate::name::Name;
use crate::oid::OidSet;
use crate::status::{status_is_error, Error, GSS_C_INDEFINITE, GSS_S_COMPLETE, GSS_S_FAILURE};
use crate::usage::CredUsage;

verus! {

/// Everything a credential discloses about itself: its principal name,
/// its remaining lifetime in whole seconds, what it may be used for, and
/// the mechanism set it may be used with.  Constructed atomically: either
/// all four fields are valid, or the aggregate does not exist.
#[derive(Debug)]
pub struct CredInfo {
    pub name: Name,
    pub lifetime: u64,
    pub usage: CredUsage,
    pub mechanisms: OidSet,
}

/// The encoded parameters of one native acquisition call, ready to pass:
/// raw borrowed handles (`0` for "default"/"none"), the lifetime field,
/// and the usage code.
#[derive(Debug)]
pub struct AcquireParams {
    pub name: u64,
    pub time_req: u32,
    pub desired_mechs: u64,
    pub usage: u32,
}

/// What one native acquisition call reported: the two status words, and
/// the credential handle written into the mandatory output slot.  The
/// native contract populates that slot only on the success path.
#[derive(Debug)]
pub struct AcquireOutcome {
    pub major: u32,
    pub minor: u32,
    pub cred: u64,
}

/// The lifetime field of an acquisition call: absent means "as long as
/// possible", the indefinite sentinel.  A request of that many whole
/// seconds or more does not fit the native 32-bit field and is clamped to
/// the same sentinel — a documented limitation, never a silent
/// truncation to some shorter lifetime.
pub open spec fn spec_encode_lifetime(time_req: Option<u64>) -> u32 {
    match time_req {
        None => GSS_C_INDEFINITE,
        Some(secs) => if secs >= GSS_C_INDEFINITE as u64 {
            GSS_C_INDEFINITE
        } else {
            secs as u32
        },
    }
}

/// A credential: the owner of exactly one native credential handle, or
/// the released/null state that teardown and null adoption leave behind.
#[derive(Debug)]
pub struct Cred {
    handle: OpaqueHandle,
}

impl View for Cred {
    type V = u64;

    closed spec fn view(&self) -> u64 {
        self.handle@
    }
}

impl Cred {
    /// The credential owning a raw handle value, as a spec-level
    /// constructor.
    pub closed spec fn spec_adopt(raw: u64) -> Cred {
        Cred { handle: OpaqueHandle::spec_adopt(raw) }
    }

    /// Whether this credential holds nothing: adopted null, or already
    /// torn down.  The terminal state.
    pub open spec fn is_released(&self) -> bool {
        self@ == 0
    }

    /// Encode the parameters of an acquisition call: the desired name or
    /// the default (null), the requested lifetime or the indefinite
    /// sentinel, the usage code, and the desired mechanism set or the
    /// null set.  Borrows the name and set; ownership does not move.
    pub fn acquire_request(
        name: Option<&Name>,
        time_req: Option<u64>,
        usage: CredUsage,
        desired_mechs: Option<&OidSet>,
    ) -> (p: AcquireParams)
        ensures
            p.name == (match name {
                None => 0u64,
                Some(n) => n@,
            }),
            p.time_req == spec_encode_lifetime(time_req),
            p.usage == usage.spec_to_c(),
            p.desired_mechs == (match desired_mechs {
                None => 0u64,
                Some(s) => s@,
            }),
    {
        let time_req: u32 = match time_req {
            None => GSS_C_INDEFINITE,
            Some(secs) => if secs >= GSS_C_INDEFINITE as u64 {
                GSS_C_INDEFINITE
            } else {
                secs as u32
            },
        };
        AcquireParams {
            name: match name {
                None => 0,
                Some(n) => n.to_c(),
            },
            time_req,
            desired_mechs: match desired_mechs {
                None => 0,
                Some(s) => s.to_c(),
            },
            usage: usage.to_c(),
        }
    }

    /// Decode the outcome of an acquisition call.  Succeeds exactly on
    /// the distinguished "complete" status, taking ownership of the
    /// produced handle; any other status is a failure carrying both raw
    /// status words, and no resource exists to clean up, because the
    /// native contract populates the credential slot only on success.
    pub fn acquire(outcome: AcquireOutcome) -> (r: Result<Cred, Error>)
        ensures
            (r is Ok) == (outcome.major == GSS_S_COMPLETE),
            r matches Ok(c) ==> c@ == outcome.cred,
            r matches Err(e) ==> e == (Error { major: outcome.major, minor: outcome.minor }),
    {
        if outcome.major == GSS_S_COMPLETE {
            Ok(Cred { handle: OpaqueHandle::adopt(outcome.cred) })
        } else {
            Err(Error { major: outcome.major, minor: outcome.minor })
        }
    }

    /// Take ownership of a credential handle produced elsewhere, for
    /// example by a context-negotiation step.  The caller must not retain
    /// or release the raw value afterward.  Adopting the null handle
    /// yields the released state.
    pub fn from_c(raw: u64) -> (c: Cred)
        ensures
            c == Cred::spec_adopt(raw),
            c@ == raw,
    {
        Cred { handle: OpaqueHandle::adopt(raw) }
    }

    /// Borrow the raw handle for passing into a native call; ownership
    /// does not move, and the value must not be released through this
    /// copy.
    pub fn to_c(&self) -> (r: u64)
        ensures
            r == self@,
    {
        self.handle.raw()
    }

    /// Surrender the handle for the native credential-release call.
    /// Yields the handle the first time, when one is held, and leaves the
    /// credential released, so a second destruction trigger finds nothing
    /// to release; the release call's own status is of no interest, since
    /// teardown must not fail outward.
    pub fn release(&mut self) -> (r: Option<u64>)
        ensures
            final(self).is_released(),
            r == spec_take_for_release(old(self)@).0,
    {
        self.handle.take_for_release()
    }

    /// The request `info` makes: all four outputs.
    pub fn info_request(&self) -> (r: InquireRequest)
        ensures
            r == (InquireRequest {
                name: Slot::Pending,
                lifetime: Slot::Pending,
                usage: Slot::Pending,
                mechanisms: Slot::Pending,
            }),
    {
        InquireRequest {
            name: Slot::Pending,
            lifetime: Slot::Pending,
            usage: Slot::Pending,
            mechanisms: Slot::Pending,
        }
    }

    /// The request `name` makes: only the name output, so no other
    /// ownership obligation can arise.
    pub fn name_request(&self) -> (r: InquireRequest)
        ensures
            r == (InquireRequest { name: Slot::Pending, ..InquireRequest::spec_empty() }),
    {
        let mut r = InquireRequest::empty();
        r.name = Slot::Pending;
        r
    }

    /// The request `lifetime` makes: only the lifetime output.
    pub fn lifetime_request(&self) -> (r: InquireRequest)
        ensures
            r == (InquireRequest { lifetime: Slot::Pending, ..InquireRequest::spec_empty() }),
    {
        let mut r = InquireRequest::empty();
        r.lifetime = Slot::Pending;
        r
    }

    /// The request `usage` makes: only the usage output.
    pub fn usage_request(&self) -> (r: InquireRequest)
        ensures
            r == (InquireRequest { usage: Slot::Pending, ..InquireRequest::spec_empty() }),
    {
        let mut r = InquireRequest::empty();
        r.usage = Slot::Pending;
        r
    }

    /// The request `mechanisms` makes: only the mechanisms output.
    pub fn mechanisms_request(&self) -> (r: InquireRequest)
        ensures
            r == (InquireRequest { mechanisms: Slot::Pending, ..InquireRequest::spec_empty() }),
    {
        let mut r = InquireRequest::empty();
        r.mechanisms = Slot::Pending;
        r
    }

    /// Settle an `info_request` exchange into all the information
    /// associated with this credential.  Succeeds exactly when the call
    /// succeeded and the reported usage code is recognized; on either
    /// failure — the native one, or the decode of an unknown usage code
    /// after a successful call — every owned handle the call produced is
    /// listed for release, so nothing leaks and nothing escapes in the
    /// error.  A successful status is only meaningful when the call
    /// filled every requested slot, which the native contract guarantees.
    pub fn info(&self, ifo: InquireRequest, major: u32, minor: u32) -> (r: Result<
        CredInfo,
        InquireFailure,
    >)
        requires
            !status_is_error(major) ==> ifo.name.is_filled() && ifo.lifetime.is_filled()
                && ifo.usage.is_filled() && ifo.mechanisms.is_filled(),
        ensures
            (r is Ok) == (!status_is_error(major) && CredUsage::spec_from_c(
                ifo.usage.value(),
            ) is Some),
            r matches Ok(ci) ==> ({
                &&& ci.name@ == ifo.name.value()
                &&& ci.lifetime == ifo.lifetime.value() as u64
                &&& Some(ci.usage) == CredUsage::spec_from_c(ifo.usage.value())
                &&& ci.mechanisms@ == ifo.mechanisms.value()
            }),
            r matches Err(f) ==> ({
                &&& f.release_name == ifo.name.as_option()
                &&& f.release_mechanisms == ifo.mechanisms.as_option()
                &&& f.error == (if status_is_error(major) {
                    Error { major, minor }
                } else {
                    Error { major: GSS_S_FAILURE, minor: 0 }
                })
            }),
    {
        match ifo.finish(major, minor) {
            Err(f) => Err(f),
            Ok(reply) => {
                let name_raw = reply.name.unwrap();
                let lifetime_secs = reply.lifetime.unwrap();
                let usage_code = reply.usage.unwrap();
                let mech_raw = reply.mechanisms.unwrap();
                match CredUsage::from_c(usage_code) {
                    Ok(usage) => Ok(
                        CredInfo {
                            name: Name::from_c(name_raw),
                            lifetime: lifetime_secs as u64,
                            usage,
                            mechanisms: OidSet::from_c(mech_raw),
                        },
                    ),
                    Err(e) => Err(
                        InquireFailure {
                            error: e,
                            release_name: Some(name_raw),
                            release_mechanisms: Some(mech_raw),
                        },
                    ),
                }
            },
        }
    }

    /// Settle a `name_request` exchange into the name associated with
    /// this credential.  On failure, a name handle the call produced
    /// before failing is listed for release.  The mechanisms slot must
    /// not have been requested here: a mechanism-set handle that this
    /// operation cannot return would otherwise go unaccounted.
    pub fn name(&self, ifo: InquireRequest, major: u32, minor: u32) -> (r: Result<
        Name,
        InquireFailure,
    >)
        requires
            !status_is_error(major) ==> ifo.name.is_filled() && ifo.mechanisms is Absent
                && !ifo.lifetime.is_pending() && !ifo.usage.is_pending(),
        ensures
            (r is Ok) == !status_is_error(major),
            r matches Ok(n) ==> n@ == ifo.name.value(),
            r matches Err(f) ==> ({
                &&& f.error == (Error { major, minor })
                &&& f.release_name == ifo.name.as_option()
                &&& f.release_mechanisms == ifo.mechanisms.as_option()
            }),
    {
        match ifo.finish(major, minor) {
            Err(f) => Err(f),
            Ok(reply) => Ok(Name::from_c(reply.name.unwrap())),
        }
    }

    /// Settle a `lifetime_request` exchange into the remaining lifetime
    /// of this credential, in whole seconds.  The owned-handle slots must
    /// not have been requested here, for the same accounting reason as in
    /// `name`.
    pub fn lifetime(&self, ifo: InquireRequest, major: u32, minor: u32) -> (r: Result<
        u64,
        InquireFailure,
    >)
        requires
            !status_is_error(major) ==> ifo.lifetime.is_filled() && ifo.name is Absent
                && ifo.mechanisms is Absent && !ifo.usage.is_pending(),
        ensures
            (r is Ok) == !status_is_error(major),
            r matches Ok(secs) ==> secs == ifo.lifetime.value() as u64,
            r matches Err(f) ==> ({
                &&& f.error == (Error { major, minor })
                &&& f.release_name == ifo.name.as_option()
                &&& f.release_mechanisms == ifo.mechanisms.as_option()
            }),
    {
        match ifo.finish(major, minor) {
            Err(f) => Err(f),
            Ok(reply) => Ok(reply.lifetime.unwrap() as u64),
        }
    }

    /// Settle a `usage_request` exchange into the allowed usage of this
    /// credential.  Even after a successful call the raw code can fail to
    /// decode; that secondary failure carries no release obligations
    /// here, because this request asks for no owned-handle output.
    pub fn usage(&self, ifo: InquireRequest, major: u32, minor: u32) -> (r: Result<
        CredUsage,
        InquireFailure,
    >)
        requires
            !status_is_error(major) ==> ifo.usage.is_filled() && ifo.name is Absent
                && ifo.mechanisms is Absent && !ifo.lifetime.is_pending(),
        ensures
            (r is Ok) == (!status_is_error(major) && CredUsage::spec_from_c(
                ifo.usage.value(),
            ) is Some),
            r matches Ok(u) ==> Some(u) == CredUsage::spec_from_c(ifo.usage.value()),
            r matches Err(f) ==> ({
                &&& f.release_name == ifo.name.as_option()
                &&& f.release_mechanisms == ifo.mechanisms.as_option()
                &&& f.error == (if status_is_error(major) {
                    Error { major, minor }
                } else {
                    Error { major: GSS_S_FAILURE, minor: 0 }
                })
            }),
    {
        match ifo.finish(major, minor) {
            Err(f) => Err(f),
            Ok(reply) => match CredUsage::from_c(reply.usage.unwrap()) {
                Ok(u) => Ok(u),
                Err(e) => Err(
                    InquireFailure { error: e, release_name: None, release_mechanisms: None },
                ),
            },
        }
    }

    /// Settle a `mechanisms_request` exchange into the mechanism set this
    /// credential may be used with.  On failure, a set handle the call
    /// produced before failing is listed for release.  The name slot must
    /// not have been requested here, for the same accounting reason as in
    /// `name`.
    pub fn mechanisms(&self, ifo: InquireRequest, major: u32, minor: u32) -> (r: Result<
        OidSet,
        InquireFailure,
    >)
        requires
            !status_is_error(major) ==> ifo.mechanisms.is_filled() && ifo.name is Absent
                && !ifo.lifetime.is_pending() && !ifo.usage.is_pending(),
        ensures
            (r is Ok) == !status_is_error(major),
            r matches Ok(s) ==> s@ == ifo.mechanisms.value(),
            r matches Err(f) ==> ({
                &&& f.error == (Error { major, minor })
                &&& f.release_name == ifo.name.as_option()
                &&& f.release_mechanisms == ifo.mechanisms.as_option()
            }),
    {
        match ifo.finish(major, minor) {
            Err(f) => Err(f),
            Ok(reply) => Ok(OidSet::from_c(reply.mechanisms.unwrap())),
        }
    }
}

/// A credential adopted from the null handle is the released state
/// itself: it is the same value as any credential whose handle has been
/// torn down.  Every operation's contract is a function of that state, so
/// the two behave identically — in particular, neither has anything to
/// release, and introspection against either settles into an error
/// exactly as the native status dictates, never into undefined behavior.
pub proof fn lemma_null_adoption_is_released(c: Cred)
    requires
        c.is_released(),
    ensures
        c == Cred::spec_adopt(0),
        spec_take_for_release(Cred::spec_adopt(0)@).0 is None,
{
    lemma_spec_adopt_state(0);
    lemma_handle_determined_by_state(c.handle, OpaqueHandle::spec_adopt(0));
}

} // verus!
