use c2pa_bridge::{
    CallbackSigner, Error, ErrorKind, SignerCallback, SignerConfig, SignerInfo, SigningAlg,
    DEFAULT_RESERVE_SIZE,
};

/// A signing capability that "signs" by adding one to every byte.
#[derive(Clone)]
struct ShiftSigner;

impl SignerCallback for ShiftSigner {
    fn sign(&self, bytes: Vec<u8>) -> Result<Vec<u8>, Error> {
        Ok(bytes.iter().map(|b| b.wrapping_add(1)).collect())
    }
}

/// A signing capability that always fails.
#[derive(Clone)]
struct BrokenSigner;

impl SignerCallback for BrokenSigner {
    fn sign(&self, _bytes: Vec<u8>) -> Result<Vec<u8>, Error> {
        Err(Error::Other { reason: "the key is unavailable".to_string() })
    }
}

const ONE_CERT: &str = "-----BEGIN CERTIFICATE-----\nAQIDBA==\n-----END CERTIFICATE-----\n";

const TWO_CERTS: &str = "-----BEGIN CERTIFICATE-----\nAQIDBA==\n-----END CERTIFICATE-----\n-----BEGIN CERTIFICATE-----\nBQY=\n-----END CERTIFICATE-----\n";

fn cert_config(certs: &str) -> SignerConfig {
    SignerConfig {
        alg: SigningAlg::Es256,
        certs: certs.as_bytes().to_vec(),
        time_authority_url: Some("http://timestamp.example".to_string()),
        use_ocsp: false,
    }
}

#[test]
fn certificate_mode_certs_returns_one_der_entry_per_pem_block() {
    let signer = CallbackSigner::new(ShiftSigner, cert_config(TWO_CERTS));
    let certs = signer.certs().unwrap();
    assert_eq!(certs.len(), 2);
    assert_eq!(certs[0], vec![1, 2, 3, 4]);
    assert_eq!(certs[1], vec![5, 6]);
}

#[test]
fn certificate_mode_with_empty_chain_fails_with_other() {
    let signer = CallbackSigner::new(ShiftSigner, cert_config(""));
    let err = signer.certs().unwrap_err();
    assert_eq!(err.kind(), ErrorKind::Other);
}

#[test]
fn certificate_mode_with_junk_chain_fails_with_other() {
    let signer = CallbackSigner::new(ShiftSigner, cert_config("not a pem block at all"));
    let err = signer.certs().unwrap_err();
    assert_eq!(err.kind(), ErrorKind::Other);
}

#[test]
fn direct_mode_certs_is_always_empty() {
    let signer = CallbackSigner::new_from_signer(ShiftSigner, SigningAlg::Ps512, 4096);
    let certs = signer.certs().unwrap();
    assert!(certs.is_empty());
    assert!(signer.direct_cose_handling());
    assert_eq!(signer.reserve_size(), 4096);
    assert_eq!(signer.time_authority_url(), None);
    assert_eq!(signer.alg(), SigningAlg::Ps512);
}

#[test]
fn certificate_mode_uses_the_generous_reserve_default() {
    let signer = CallbackSigner::new(ShiftSigner, cert_config(ONE_CERT));
    assert_eq!(signer.reserve_size(), DEFAULT_RESERVE_SIZE);
    assert!(!signer.direct_cose_handling());
    assert_eq!(signer.alg(), SigningAlg::Es256);
    assert_eq!(
        signer.time_authority_url(),
        Some("http://timestamp.example".to_string())
    );
}

#[test]
fn sign_passes_the_callback_output_through_unmodified() {
    let signer = CallbackSigner::new(ShiftSigner, cert_config(ONE_CERT));
    let sig = signer.sign(vec![1, 2, 3]).unwrap();
    assert_eq!(sig, vec![2, 3, 4]);
}

#[test]
fn sign_failure_is_a_signature_class_error() {
    let signer = CallbackSigner::new(BrokenSigner, cert_config(ONE_CERT));
    let err = signer.sign(vec![1, 2, 3]).unwrap_err();
    assert_eq!(err.kind(), ErrorKind::Signature);
    assert_eq!(err.reason(), "the key is unavailable".to_string());
}

#[test]
fn algorithm_tags_parse_without_regard_to_case() {
    assert_eq!(SigningAlg::from_str("es256").unwrap(), SigningAlg::Es256);
    assert_eq!(SigningAlg::from_str("ES384").unwrap(), SigningAlg::Es384);
    assert_eq!(SigningAlg::from_str("Es512").unwrap(), SigningAlg::Es512);
    assert_eq!(SigningAlg::from_str("pS256").unwrap(), SigningAlg::Ps256);
    assert_eq!(SigningAlg::from_str("ps384").unwrap(), SigningAlg::Ps384);
    assert_eq!(SigningAlg::from_str("PS512").unwrap(), SigningAlg::Ps512);
    assert_eq!(SigningAlg::from_str("Ed25519").unwrap(), SigningAlg::Ed25519);
    assert_eq!(SigningAlg::Ed25519.name(), "ed25519");
}

#[test]
fn unknown_algorithm_tags_are_an_other_class_failure() {
    let err = SigningAlg::from_str("rsa").unwrap_err();
    assert_eq!(err.kind(), ErrorKind::Other);
    assert_eq!(err.reason(), "Invalid signing algorithm".to_string());
    assert!(SigningAlg::from_str("").is_err());
    assert!(SigningAlg::from_str("es2560").is_err());
}

#[test]
fn signer_info_reads_its_json_description() {
    let json = "{\"alg\":\"Es256\",\"sign_cert\":[1,2,3],\"private_key\":[4,5],\"ta_url\":\"http://t.example\"}";
    let info = SignerInfo::from_json(json).unwrap();
    assert_eq!(info.alg, "Es256".to_string());
    assert_eq!(info.sign_cert, vec![1, 2, 3]);
    assert_eq!(info.private_key, vec![4, 5]);
    assert_eq!(info.ta_url, Some("http://t.example".to_string()));
    assert_eq!(info.alg().unwrap(), SigningAlg::Es256);
}

#[test]
fn signer_info_treats_a_null_or_absent_url_as_none() {
    let json = "{\"alg\":\"ps256\",\"sign_cert\":[],\"private_key\":[],\"ta_url\":null}";
    let info = SignerInfo::from_json(json).unwrap();
    assert_eq!(info.ta_url, None);
    let json = "{\"alg\":\"ps256\",\"sign_cert\":[],\"private_key\":[]}";
    let info = SignerInfo::from_json(json).unwrap();
    assert_eq!(info.ta_url, None);
}

#[test]
fn signer_info_rejects_what_does_not_fit_with_json_errors() {
    let cases = [
        "not json at all",
        "{\"sign_cert\":[],\"private_key\":[]}",
        "{\"alg\":7,\"sign_cert\":[],\"private_key\":[]}",
        "{\"alg\":\"es256\",\"private_key\":[]}",
        "{\"alg\":\"es256\",\"sign_cert\":[],\"private_key\":[300]}",
        "{\"alg\":\"es256\",\"sign_cert\":\"pem\",\"private_key\":[]}",
        "{\"alg\":\"es256\",\"sign_cert\":[],\"private_key\":[],\"ta_url\":9}",
    ];
    for json in cases {
        let err = SignerInfo::from_json(json).unwrap_err();
        assert_eq!(err.kind(), ErrorKind::Json);
    }
}

#[test]
fn signer_info_with_a_bad_tag_fails_at_algorithm_lookup() {
    let json = "{\"alg\":\"md5\",\"sign_cert\":[],\"private_key\":[]}";
    let info = SignerInfo::from_json(json).unwrap();
    let err = info.alg().unwrap_err();
    assert_eq!(err.kind(), ErrorKind::Other);
}
