use c2pa_bridge::engine::engine_error;
use c2pa_bridge::{Access, Error, ErrorKind, FaultFlags, SessionLock};

fn no_flags() -> FaultFlags {
    FaultFlags {
        assertion_missing: false,
        assertion: false,
        manifest: false,
        manifest_missing: false,
        decoding: false,
        encoding: false,
        signature: false,
        remote_manifest: false,
        io: false,
        json: false,
        resource_missing: false,
        file_missing: false,
        not_supported: false,
        verify: false,
    }
}

#[test]
fn every_flag_maps_to_exactly_its_category() {
    let text = || "why it failed".to_string();
    let cases: Vec<(FaultFlags, ErrorKind)> = vec![
        (FaultFlags { assertion: true, ..no_flags() }, ErrorKind::Assertion),
        (FaultFlags { manifest: true, ..no_flags() }, ErrorKind::Manifest),
        (FaultFlags { manifest_missing: true, ..no_flags() }, ErrorKind::ManifestNotFound),
        (FaultFlags { decoding: true, ..no_flags() }, ErrorKind::Decoding),
        (FaultFlags { encoding: true, ..no_flags() }, ErrorKind::Encoding),
        (FaultFlags { signature: true, ..no_flags() }, ErrorKind::Signature),
        (FaultFlags { remote_manifest: true, ..no_flags() }, ErrorKind::RemoteManifest),
        (FaultFlags { io: true, ..no_flags() }, ErrorKind::Io),
        (FaultFlags { json: true, ..no_flags() }, ErrorKind::Json),
        (FaultFlags { resource_missing: true, ..no_flags() }, ErrorKind::ResourceNotFound),
        (FaultFlags { file_missing: true, ..no_flags() }, ErrorKind::FileNotFound),
        (FaultFlags { not_supported: true, ..no_flags() }, ErrorKind::NotSupported),
        (FaultFlags { verify: true, ..no_flags() }, ErrorKind::Verify),
    ];
    for (flags, expected) in cases {
        let e = Error::classified(flags, text());
        assert_eq!(e.kind(), expected);
        assert_eq!(e.reason(), "why it failed".to_string());
    }
}

#[test]
fn a_missing_assertion_is_reported_without_text() {
    let flags = FaultFlags { assertion_missing: true, ..no_flags() };
    let e = Error::classified(flags, "assertion not found".to_string());
    assert_eq!(e.kind(), ErrorKind::AssertionNotFound);
    assert_eq!(e.reason(), String::new());
}

#[test]
fn an_unclassified_failure_falls_to_other_and_keeps_its_text() {
    let e = Error::classified(no_flags(), "something new went wrong".to_string());
    assert_eq!(e.kind(), ErrorKind::Other);
    assert_eq!(e.reason(), "something new went wrong".to_string());
}

#[test]
fn lock_contention_has_its_own_category_and_no_text() {
    let e = Error::RwLock;
    assert_eq!(e.kind(), ErrorKind::LockContention);
    assert_eq!(e.reason(), String::new());
}

#[test]
fn exclusive_hold_is_not_reentrant_and_never_corrupts() {
    let mut lock = SessionLock::new();
    assert!(lock.try_exclusive());
    assert!(!lock.try_exclusive());
    assert!(!lock.try_shared());
    lock.release_exclusive();
    assert!(lock.try_exclusive());
    lock.release_exclusive();
}

#[test]
fn shared_holds_stack_and_block_writers() {
    let mut lock = SessionLock::new();
    assert!(lock.try_shared());
    assert!(lock.try_shared());
    assert!(!lock.try_exclusive());
    lock.release_shared();
    assert!(!lock.try_exclusive());
    lock.release_shared();
    assert!(lock.try_exclusive());
    lock.release_exclusive();
}

#[test]
fn access_reports_who_holds_the_guard() {
    assert_eq!(Access::Idle, Access::Idle);
    assert_ne!(Access::Idle, Access::Exclusive);
    assert_ne!(Access::Shared(1), Access::Shared(2));
}

#[test]
fn engine_failures_classify_by_semantic_class() {
    assert_eq!(
        engine_error(c2pa::Error::JumbfNotFound).kind(),
        ErrorKind::ManifestNotFound
    );
    assert_eq!(
        engine_error(c2pa::Error::UnsupportedType).kind(),
        ErrorKind::NotSupported
    );
    assert_eq!(
        engine_error(c2pa::Error::CoseSignature).kind(),
        ErrorKind::Signature
    );
    assert_eq!(
        engine_error(c2pa::Error::RawSignerError(
            c2pa::crypto::raw_signature::RawSignerError::CryptoLibraryError(
                "the key is unavailable".to_string()
            )
        ))
        .kind(),
        ErrorKind::Signature
    );
    assert_eq!(
        engine_error(c2pa::Error::C2PAValidation("claim.signature".to_string())).kind(),
        ErrorKind::Verify
    );
    assert_eq!(
        engine_error(c2pa::Error::NotFound).kind(),
        ErrorKind::ResourceNotFound
    );
    assert_eq!(
        engine_error(c2pa::Error::OperationCancelled).kind(),
        ErrorKind::Other
    );
    let missing = engine_error(c2pa::Error::AssertionMissing { url: "self#jumbf=x".to_string() });
    assert_eq!(missing.kind(), ErrorKind::AssertionNotFound);
    assert_eq!(missing.reason(), String::new());
}
