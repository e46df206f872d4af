use coordinator::admin::{
    accept_enclave_id, admin_lookup, check_secret, constant_time_eq, verify_admin, AdminAuthError, AdminLookup,
    KeyAdminError, SetEnclaveIdError, SetEnclaveIdReq,
};

#[test]
fn constant_time_eq_compares_whole_strings() {
    assert!(constant_time_eq(b"secret", b"secret"));
    assert!(!constant_time_eq(b"secret", b"secreT"));
    assert!(!constant_time_eq(b"secret", b"secre"));
    assert!(constant_time_eq(b"", b""));
    assert!(!constant_time_eq(b"", b"x"));
}

#[test]
fn check_secret_requires_configuration() {
    assert_eq!(check_secret(None, Some("anything")).unwrap_err(), AdminAuthError::NotConfigured);
    assert_eq!(check_secret(None, None).unwrap_err(), AdminAuthError::NotConfigured);
}

#[test]
fn check_secret_trims_both_sides() {
    assert_eq!(check_secret(Some("  s3cret\n"), Some("s3cret  ")).unwrap(), "s3cret");
    assert_eq!(check_secret(Some("s3cret"), Some("s3cret")).unwrap(), "s3cret");
}

#[test]
fn check_secret_rejects_wrong_or_missing_header() {
    assert_eq!(check_secret(Some("s3cret"), Some("other")).unwrap_err(), AdminAuthError::BadSecret);
    assert_eq!(check_secret(Some("s3cret"), None).unwrap_err(), AdminAuthError::BadSecret);
    assert_eq!(check_secret(Some("s3cret"), Some("s3cre")).unwrap_err(), AdminAuthError::BadSecret);
}

#[test]
fn check_secret_blank_configuration_admits_nobody() {
    assert_eq!(check_secret(Some("   "), None).unwrap_err(), AdminAuthError::BadSecret);
    assert_eq!(check_secret(Some(""), Some("")).unwrap_err(), AdminAuthError::BadSecret);
    assert_eq!(check_secret(Some(" \n"), Some("  ")).unwrap_err(), AdminAuthError::BadSecret);
}

#[test]
fn verify_admin_outcomes() {
    assert_eq!(verify_admin(None, Some("x")), Err(KeyAdminError::NotConfigured));
    assert_eq!(verify_admin(Some(""), Some("")), Err(KeyAdminError::NotConfigured));
    assert_eq!(verify_admin(Some("k"), None), Err(KeyAdminError::Unauthorized));
    assert_eq!(verify_admin(Some("k"), Some("K")), Err(KeyAdminError::Unauthorized));
    assert_eq!(verify_admin(Some("k"), Some(" k")), Err(KeyAdminError::Unauthorized));
    assert_eq!(verify_admin(Some("k"), Some("k")), Ok(()));
}

#[test]
fn accept_enclave_id_trims_id_and_keeps_digest() {
    let req = SetEnclaveIdReq { enclave_object_id: "  0xabc  ".to_string(), tx_digest: Some("D1".to_string()) };
    let a = accept_enclave_id(Some("s"), Some("s"), &req).ok().unwrap();
    assert_eq!(a.secret, "s");
    assert_eq!(a.registration.enclave_object_id, "0xabc");
    assert_eq!(a.registration.tx_digest, "D1");

    let req = SetEnclaveIdReq { enclave_object_id: "0xdef".to_string(), tx_digest: None };
    let a = accept_enclave_id(Some("s"), Some("s"), &req).ok().unwrap();
    assert_eq!(a.registration.tx_digest, "");
}

#[test]
fn accept_enclave_id_errors() {
    let blank = SetEnclaveIdReq { enclave_object_id: "   ".to_string(), tx_digest: None };
    assert!(matches!(accept_enclave_id(Some("s"), Some("s"), &blank), Err(SetEnclaveIdError::MissingId)));
    let good = SetEnclaveIdReq { enclave_object_id: "0x1".to_string(), tx_digest: None };
    assert!(matches!(
        accept_enclave_id(Some("s"), Some("t"), &good),
        Err(SetEnclaveIdError::Auth(AdminAuthError::BadSecret))
    ));
    assert!(matches!(
        accept_enclave_id(None, Some("s"), &blank),
        Err(SetEnclaveIdError::Auth(AdminAuthError::NotConfigured))
    ));
}

#[test]
fn admin_lookup_checks_secret_then_uuid() {
    assert_eq!(
        admin_lookup(Some("s"), Some("s"), "01234567-89ab-cdef-0123-456789abcdef"),
        AdminLookup::Lookup(0x0123_4567_89ab_cdef_0123_4567_89ab_cdef)
    );
    assert_eq!(admin_lookup(Some("s"), Some("s"), "not-a-uuid"), AdminLookup::BadId);
    assert_eq!(
        admin_lookup(Some("s"), Some("x"), "not-a-uuid"),
        AdminLookup::Refused(AdminAuthError::BadSecret)
    );
    assert_eq!(admin_lookup(None, None, "x"), AdminLookup::Refused(AdminAuthError::NotConfigured));
}
