//! Verified credential-lifecycle core for a GSSAPI-style security library.
//!
//! The native library hands out opaque handles (credentials, principal
//! names, mechanism-OID sets) through C-style calls: the caller passes
//! output slots, and every handle produced must later be released exactly
//! once.  This crate holds the verified decision logic of that protocol:
//! encoding call parameters, decoding status words and usage codes, and
//! accounting for every owned handle on every exit path of the multi-field
//! inquire call, including paths where the call failed after filling only
//! some of the requested slots.
//!
//! The native calls themselves are made by an unverified shell around this
//! crate: it forwards the encoded parameters, records what the library
//! wrote into each output slot, and hands the raw outcome back to the
//! functions here, which say exactly what is returned and what must be
//! released.  Handles cross this boundary as plain integers (the pointer
//! value, with `0` for the null handle).

pub mod cred;
pub mod handle;
pub mod inquire;
pub mod name;
pub mod oid;
pub mod status;
pub mod usage;
