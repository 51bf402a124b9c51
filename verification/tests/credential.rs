//! Tests drive the verified decision logic the way the unverified shell
//! does: they play the native library (a test double), filling output
//! slots and reporting status words, and check what the library returns
//! and what it orders released.

use libgssapi::cred::{AcquireOutcome, Cred};
use libgssapi::inquire::Slot;
use libgssapi::name::Name;
use libgssapi::oid::OidSet;
use libgssapi::status::{Error, GSS_C_INDEFINITE, GSS_S_COMPLETE, GSS_S_FAILURE};
use libgssapi::usage::CredUsage;

/// A fatal major status: routine error "no credential" (7 << 16).
const MAJOR_NO_CRED: u32 = 0x0007_0000;

#[test]
fn usage_round_trip_all_variants() {
    for u in [CredUsage::Accept, CredUsage::Initiate, CredUsage::Both] {
        let code = u.to_c();
        assert_eq!(CredUsage::from_c(code as i32).unwrap(), u);
    }
}

#[test]
fn usage_encodes_exact_codes() {
    assert_eq!(CredUsage::Both.to_c(), 0);
    assert_eq!(CredUsage::Initiate.to_c(), 1);
    assert_eq!(CredUsage::Accept.to_c(), 2);
}

#[test]
fn usage_decode_rejects_unknown_codes() {
    for code in [3, 17, 255, -1, i32::MIN, i32::MAX] {
        let e = CredUsage::from_c(code).unwrap_err();
        assert_eq!(e, Error { major: GSS_S_FAILURE, minor: 0 });
    }
}

#[test]
fn acquire_defaults_reports_initiate() {
    // No name, no lifetime, no mechanisms: everything encodes to the
    // documented defaults.
    let p = Cred::acquire_request(None, None, CredUsage::Initiate, None);
    assert_eq!(p.name, 0);
    assert_eq!(p.time_req, GSS_C_INDEFINITE);
    assert_eq!(p.desired_mechs, 0);
    assert_eq!(p.usage, 1);

    // The double accepts the defaults and produces a credential handle.
    let cred = Cred::acquire(AcquireOutcome { major: GSS_S_COMPLETE, minor: 0, cred: 0x1000 })
        .unwrap();
    assert_eq!(cred.to_c(), 0x1000);

    // The double answers the usage inquiry with the code for Initiate.
    let mut req = cred.usage_request();
    req.fill_usage(1);
    let u = cred.usage(req, GSS_S_COMPLETE, 0).unwrap();
    assert_eq!(u, CredUsage::Initiate);
}

#[test]
fn acquire_encodes_explicit_lifetime_exactly() {
    let p = Cred::acquire_request(None, Some(3600), CredUsage::Initiate, None);
    assert_eq!(p.time_req, 3600);
    assert_ne!(p.time_req, GSS_C_INDEFINITE);
}

#[test]
fn acquire_clamps_unrepresentable_lifetime_to_indefinite() {
    let largest_finite = GSS_C_INDEFINITE as u64 - 1;
    let p = Cred::acquire_request(None, Some(largest_finite), CredUsage::Both, None);
    assert_eq!(p.time_req, 0xffff_fffe);

    for secs in [GSS_C_INDEFINITE as u64, GSS_C_INDEFINITE as u64 + 1, u64::MAX] {
        let p = Cred::acquire_request(None, Some(secs), CredUsage::Both, None);
        assert_eq!(p.time_req, GSS_C_INDEFINITE);
    }
}

#[test]
fn acquire_borrows_name_and_mechanisms() {
    let name = Name::from_c(0xa1);
    let mechs = OidSet::from_c(0xb2);
    let p = Cred::acquire_request(Some(&name), None, CredUsage::Accept, Some(&mechs));
    assert_eq!(p.name, 0xa1);
    assert_eq!(p.desired_mechs, 0xb2);
    assert_eq!(p.usage, 2);
    // Ownership did not move: both handles are still held here.
    assert_eq!(name.to_c(), 0xa1);
    assert_eq!(mechs.to_c(), 0xb2);
}

#[test]
fn acquire_failure_preserves_both_status_words() {
    let e = Cred::acquire(AcquireOutcome { major: MAJOR_NO_CRED, minor: 99, cred: 0 })
        .unwrap_err();
    assert_eq!(e, Error { major: MAJOR_NO_CRED, minor: 99 });
}

#[test]
fn acquire_accepts_only_the_distinguished_complete_status() {
    // A supplementary-bits-only status is not fatal for inquiry, but
    // acquisition succeeds only on the exact "complete" value.
    let r = Cred::acquire(AcquireOutcome { major: 1, minor: 0, cred: 0x1000 });
    assert!(r.is_err());
}

#[test]
fn partial_fill_failure_releases_name_exactly_once() {
    let cred = Cred::from_c(0x2000);
    let mut req = cred.info_request();

    // The double fills the name slot, then fails before touching the
    // lifetime, usage and mechanisms slots.
    req.fill_name(0xaa);
    let f = cred.info(req, MAJOR_NO_CRED, 11).unwrap_err();

    assert_eq!(f.error, Error { major: MAJOR_NO_CRED, minor: 11 });
    assert_eq!(f.release_name, Some(0xaa));
    assert_eq!(f.release_mechanisms, None);

    // The double's release counter: draining the obligations through the
    // owning wrapper frees the produced handle exactly once.
    let mut releases: u32 = 0;
    if let Some(h) = f.release_name {
        let mut n = Name::from_c(h);
        if n.release() == Some(0xaa) {
            releases += 1;
        }
        // A second destruction trigger on the same wrapper is a no-op.
        if n.release().is_some() {
            releases += 1;
        }
    }
    if f.release_mechanisms.is_some() {
        releases += 1;
    }
    assert_eq!(releases, 1);
}

#[test]
fn info_reports_the_acquired_usage() {
    let p = Cred::acquire_request(None, None, CredUsage::Accept, None);
    let cred = Cred::acquire(AcquireOutcome { major: GSS_S_COMPLETE, minor: 0, cred: 0x3000 })
        .unwrap();

    // The double answers the full inquiry consistently with what it
    // granted at acquisition: the same usage code that was requested.
    let mut req = cred.info_request();
    req.fill_name(0xa1);
    req.fill_lifetime(300);
    req.fill_usage(p.usage as i32);
    req.fill_mechanisms(0xb2);
    let info = cred.info(req, GSS_S_COMPLETE, 0).unwrap();

    assert_eq!(info.usage, CredUsage::Accept);
    assert_eq!(info.lifetime, 300);
    assert_eq!(info.name.to_c(), 0xa1);
    assert_eq!(info.mechanisms.to_c(), 0xb2);
}

#[test]
fn info_decode_failure_releases_collected_handles() {
    // The call itself succeeds, but reports a usage code this layer does
    // not recognize: the handles collected so far must be listed for
    // release, and the error is the local decode failure.
    let cred = Cred::from_c(0x3000);
    let mut req = cred.info_request();
    req.fill_name(0xa1);
    req.fill_lifetime(300);
    req.fill_usage(9);
    req.fill_mechanisms(0xb2);
    let f = cred.info(req, GSS_S_COMPLETE, 0).unwrap_err();

    assert_eq!(f.error, Error { major: GSS_S_FAILURE, minor: 0 });
    assert_eq!(f.release_name, Some(0xa1));
    assert_eq!(f.release_mechanisms, Some(0xb2));
}

#[test]
fn usage_decode_failure_carries_no_obligations() {
    let cred = Cred::from_c(0x3000);
    let mut req = cred.usage_request();
    req.fill_usage(9);
    let f = cred.usage(req, GSS_S_COMPLETE, 0).unwrap_err();
    assert_eq!(f.error, Error { major: GSS_S_FAILURE, minor: 0 });
    assert_eq!(f.release_name, None);
    assert_eq!(f.release_mechanisms, None);
}

#[test]
fn single_slot_projections_return_their_value() {
    let cred = Cred::from_c(0x4000);

    let mut req = cred.name_request();
    req.fill_name(0xa1);
    let name = cred.name(req, GSS_S_COMPLETE, 0).unwrap();
    assert_eq!(name.to_c(), 0xa1);

    let mut req = cred.lifetime_request();
    req.fill_lifetime(7200);
    let secs = cred.lifetime(req, GSS_S_COMPLETE, 0).unwrap();
    assert_eq!(secs, 7200u64);

    let mut req = cred.mechanisms_request();
    req.fill_mechanisms(0xc3);
    let mechs = cred.mechanisms(req, GSS_S_COMPLETE, 0).unwrap();
    assert_eq!(mechs.to_c(), 0xc3);
}

#[test]
fn mechanisms_failure_lists_the_set_for_release() {
    let cred = Cred::from_c(0x4000);
    let mut req = cred.mechanisms_request();
    req.fill_mechanisms(0xc3);
    let f = cred.mechanisms(req, MAJOR_NO_CRED, 4).unwrap_err();
    assert_eq!(f.error, Error { major: MAJOR_NO_CRED, minor: 4 });
    assert_eq!(f.release_mechanisms, Some(0xc3));
    assert_eq!(f.release_name, None);
}

#[test]
fn each_projection_requests_only_its_slots() {
    let cred = Cred::from_c(0x5000);

    let req = cred.info_request();
    assert!(matches!(req.name, Slot::Pending));
    assert!(matches!(req.lifetime, Slot::Pending));
    assert!(matches!(req.usage, Slot::Pending));
    assert!(matches!(req.mechanisms, Slot::Pending));

    let req = cred.name_request();
    assert!(matches!(req.name, Slot::Pending));
    assert!(matches!(req.lifetime, Slot::Absent));
    assert!(matches!(req.usage, Slot::Absent));
    assert!(matches!(req.mechanisms, Slot::Absent));

    let req = cred.lifetime_request();
    assert!(matches!(req.lifetime, Slot::Pending));
    assert!(matches!(req.name, Slot::Absent));

    let req = cred.usage_request();
    assert!(matches!(req.usage, Slot::Pending));
    assert!(matches!(req.mechanisms, Slot::Absent));

    let req = cred.mechanisms_request();
    assert!(matches!(req.mechanisms, Slot::Pending));
    assert!(matches!(req.name, Slot::Absent));
}

#[test]
fn double_release_frees_at_most_once() {
    let mut cred = Cred::from_c(0x6000);
    assert_eq!(cred.release(), Some(0x6000));
    // The second destruction trigger finds the released state.
    assert_eq!(cred.release(), None);
    assert_eq!(cred.to_c(), 0);
}

#[test]
fn null_adoption_behaves_as_released() {
    let mut adopted_null = Cred::from_c(0);
    let mut torn_down = Cred::from_c(0x7000);
    torn_down.release();

    // Same state, same raw value, nothing to release from either.
    assert_eq!(adopted_null.to_c(), torn_down.to_c());
    assert_eq!(adopted_null.release(), None);
    assert_eq!(torn_down.release(), None);

    // An inquiry against either fails gracefully with the status the
    // native call reports for a missing credential; no handle was
    // produced, so there is nothing to clean up.
    for cred in [&adopted_null, &torn_down] {
        let req = cred.name_request();
        let f = cred.name(req, MAJOR_NO_CRED, 0).unwrap_err();
        assert_eq!(f.error.major, MAJOR_NO_CRED);
        assert_eq!(f.release_name, None);
        assert_eq!(f.release_mechanisms, None);
    }
}

#[test]
fn supplementary_status_bits_are_not_fatal_for_inquiry() {
    // Only the calling- and routine-error bytes make a status fatal.
    assert_eq!(libgssapi::status::gss_error(1), 0);
    assert_eq!(libgssapi::status::gss_error(0x000d_0001), 0x000d_0000);

    // An inquiry whose status carries only supplementary bits succeeds.
    let cred = Cred::from_c(0x8000);
    let mut req = cred.lifetime_request();
    req.fill_lifetime(60);
    let secs = cred.lifetime(req, 1, 0).unwrap();
    assert_eq!(secs, 60);
}

#[test]
fn name_and_oidset_release_exactly_once() {
    let mut n = Name::from_c(0x9000);
    assert_eq!(n.release(), Some(0x9000));
    assert_eq!(n.release(), None);
    assert_eq!(n.to_c(), 0);

    let mut s = OidSet::from_c(0);
    // Adopted null: nothing to release, identical to the released state.
    assert_eq!(s.release(), None);
    assert_eq!(s.to_c(), 0);
}
