//! The credential usage vocabulary: three numeric codes of the native
//! calling convention and their strongly-typed counterpart.

use vstd::prelude::*;

use crate::status::{Error, GSS_S_FAILURE};

verus! {

/// Usage code "may both initiate and accept security contexts".
pub const GSS_C_BOTH: u32 = 0;

/// Usage code "may initiate security contexts".
pub const GSS_C_INITIATE: u32 = 1;

/// Usage code "may accept security contexts".
pub const GSS_C_ACCEPT: u32 = 2;

/// What a credential may be used for.  The native code space has exactly
/// three recognized values; any other code observed when decoding a
/// native result is a decode failure, never a silent default.
#[derive(Clone, Copy, Debug, PartialEq, Eq, Structural)]
pub enum CredUsage {
    Accept,
    Initiate,
    Both,
}

impl CredUsage {
    /// The typed value of a raw usage code, if the code is recognized.
    /// The native call reports the code as a signed integer; it is read
    /// as the unsigned code space.
    pub open spec fn spec_from_c(c: i32) -> Option<CredUsage> {
        if c as u32 == GSS_C_BOTH {
            Some(CredUsage::Both)
        } else if c as u32 == GSS_C_INITIATE {
            Some(CredUsage::Initiate)
        } else if c as u32 == GSS_C_ACCEPT {
            Some(CredUsage::Accept)
        } else {
            None
        }
    }

    /// The raw code of a typed usage value; total, every variant encodes.
    pub open spec fn spec_to_c(self) -> u32 {
        match self {
            CredUsage::Both => GSS_C_BOTH,
            CredUsage::Initiate => GSS_C_INITIATE,
            CredUsage::Accept => GSS_C_ACCEPT,
        }
    }

    /// Decode a raw usage code.  Exactly the three recognized codes
    /// decode; everything else is a general-failure error, so that an
    /// unknown code from the native library is never mistaken for a
    /// recognized usage.
    pub fn from_c(c: i32) -> (r: Result<CredUsage, Error>)
        ensures
            r matches Ok(u) ==> Self::spec_from_c(c) == Some(u),
            r matches Err(e) ==> Self::spec_from_c(c) is None && e == (Error {
                major: GSS_S_FAILURE,
                minor: 0,
            }),
            (r is Ok) == (Self::spec_from_c(c) is Some),
    {
        let code: u32 = c as u32;
        if code == GSS_C_BOTH {
            Ok(CredUsage::Both)
        } else if code == GSS_C_INITIATE {
            Ok(CredUsage::Initiate)
        } else if code == GSS_C_ACCEPT {
            Ok(CredUsage::Accept)
        } else {
            Err(Error { major: GSS_S_FAILURE, minor: 0 })
        }
    }

    /// Encode a usage value as its raw code; total, no failure case.
    pub fn to_c(&self) -> (r: u32)
        ensures
            r == self.spec_to_c(),
    {
        match self {
            CredUsage::Both => GSS_C_BOTH,
            CredUsage::Initiate => GSS_C_INITIATE,
            CredUsage::Accept => GSS_C_ACCEPT,
        }
    }
}

/// Encoding and decoding of usage values round-trip: every variant comes
/// back unchanged from its own code.
pub proof fn lemma_usage_round_trip(u: CredUsage)
    ensures
        CredUsage::spec_from_c(u.spec_to_c() as i32) == Some(u),
{
}

/// Every code outside the three recognized ones is rejected by the
/// decoder; no unknown code falls back to a default variant.
pub proof fn lemma_usage_decode_rejects(c: i32)
    requires
        c != GSS_C_BOTH as i32,
        c != GSS_C_INITIATE as i32,
        c != GSS_C_ACCEPT as i32,
    ensures
        CredUsage::spec_from_c(c) is None,
{
    assert(c != 0 && c != 1 && c != 2 ==> c as u32 != 0 && c as u32 != 1 && c as u32 != 2)
        by (bit_vector);
}

} // verus!
