use vstd::prelude::*;

use crate::alg::{spec_parse_alg, SigningAlg};
use crate::error::{Error, ErrorKind};

verus! {

/// Configuration for a certificate-mode signer.
pub struct SignerConfig {
    /// The algorithm the signing capability uses.
    pub alg: SigningAlg,
    /// The certificate chain, as concatenated PEM blocks.
    pub certs: Vec<u8>,
    /// URL of a time authority to time stamp the signature.
    pub time_authority_url: Option<String>,
    /// Whether to fetch an OCSP response for the signing certificate when
    /// one is available.
    pub use_ocsp: bool,
}

#[verifier::external_type_specification]
#[verifier::external_body]
pub struct ExJsonValue(serde_json::Value);

/// Whether the text parses as one JSON document: a pure function of the
/// characters alone.
pub uninterp spec fn json_parses(text: Seq<char>) -> bool;

/// Relies on serde_json::from_str: parses the text as one JSON document;
/// whether parsing succeeds depends on the text alone.
#[verifier::external_body]
fn json_parse(s: &str) -> (r: Result<serde_json::Value, String>)
    ensures
        (r matches Ok(_)) == json_parses(s@),
{
    serde_json::from_str::<serde_json::Value>(s).map_err(|e| e.to_string())
}

/// Relies on serde_json::Value::get: the value of the named member of a
/// JSON object, if the value is an object with such a member.
#[verifier::external_body]
fn json_get<'a>(v: &'a serde_json::Value, key: &str) -> Option<&'a serde_json::Value> {
    v.get(key)
}

/// Relies on serde_json::Value::as_str: the text of a JSON string, if the
/// value is one.
#[verifier::external_body]
fn json_as_str(v: &serde_json::Value) -> Option<String> {
    match v.as_str() {
        Some(s) => Some(s.to_string()),
        None => None,
    }
}

/// Relies on serde_json::Value::as_u64: the value of a JSON integer, if the
/// value is one that fits.
#[verifier::external_body]
fn json_as_u64(v: &serde_json::Value) -> Option<u64> {
    v.as_u64()
}

/// Relies on serde_json::Value::as_array: the elements of a JSON array, if
/// the value is one.
#[verifier::external_body]
fn json_as_array<'a>(v: &'a serde_json::Value) -> Option<&'a Vec<serde_json::Value>> {
    v.as_array()
}

/// Relies on serde_json::Value::is_null: whether the value is JSON null.
#[verifier::external_body]
fn json_is_null(v: &serde_json::Value) -> bool {
    v.is_null()
}

/// A JSON array of byte values read as bytes; anything else — a missing
/// array, a non-integer element, a value over 255 — is a `Json`-class
/// failure.
fn json_bytes(v: &serde_json::Value) -> (r: Result<Vec<u8>, Error>)
    ensures
        match r {
            Ok(_) => true,
            Err(e) => e.spec_kind() == ErrorKind::Json,
        },
{
    match json_as_array(v) {
        None => Err(Error::Json { reason: "expected an array of bytes".to_string() }),
        Some(arr) => {
            let n = arr.len();
            let mut out: Vec<u8> = Vec::new();
            let mut i: usize = 0;
            while i < n
                invariant
                    i <= n,
                    n == arr@.len(),
                decreases n - i,
            {
                match json_as_u64(&arr[i]) {
                    None => {
                        return Err(
                            Error::Json { reason: "expected an array of bytes".to_string() },
                        );
                    },
                    Some(b) => {
                        if b > 255 {
                            return Err(
                                Error::Json { reason: "byte value out of range".to_string() },
                            );
                        }
                        out.push(b as u8);
                    },
                }
                i += 1;
            }
            Ok(out)
        },
    }
}

/// The information needed to create an engine-side signer from key
/// material the host supplies: the algorithm tag, the signing certificate
/// chain, the private key, and an optional timestamp-authority URL.
#[derive(Debug, Clone)]
pub struct SignerInfo {
    pub alg: String,
    pub sign_cert: Vec<u8>,
    pub private_key: Vec<u8>,
    pub ta_url: Option<String>,
}

impl SignerInfo {
    /// Read a `SignerInfo` from its JSON description: an object with an
    /// `alg` string, `sign_cert` and `private_key` byte arrays, and an
    /// optional `ta_url` string.  Whatever does not fit that shape — text
    /// that is not JSON included — is a `Json`-class failure; text that is
    /// not JSON at all never succeeds.
    pub fn from_json(json: &str) -> (r: Result<SignerInfo, Error>)
        ensures
            (r matches Ok(_)) ==> json_parses(json@),
            !json_parses(json@) ==> (r matches Err(_)),
            match r {
                Ok(_) => true,
                Err(e) => e.spec_kind() == ErrorKind::Json,
            },
    {
        let v = match json_parse(json) {
            Ok(v) => v,
            Err(reason) => {
                return Err(Error::Json { reason });
            },
        };
        let alg = match json_get(&v, "alg") {
            Some(a) => match json_as_str(a) {
                Some(s) => s,
                None => {
                    return Err(Error::Json { reason: "field `alg` must be a string".to_string() });
                },
            },
            None => {
                return Err(Error::Json { reason: "missing field `alg`".to_string() });
            },
        };
        let sign_cert = match json_get(&v, "sign_cert") {
            Some(c) => match json_bytes(c) {
                Ok(bytes) => bytes,
                Err(e) => {
                    return Err(e);
                },
            },
            None => {
                return Err(Error::Json { reason: "missing field `sign_cert`".to_string() });
            },
        };
        let private_key = match json_get(&v, "private_key") {
            Some(k) => match json_bytes(k) {
                Ok(bytes) => bytes,
                Err(e) => {
                    return Err(e);
                },
            },
            None => {
                return Err(Error::Json { reason: "missing field `private_key`".to_string() });
            },
        };
        let ta_url = match json_get(&v, "ta_url") {
            None => None,
            Some(t) => {
                if json_is_null(t) {
                    None
                } else {
                    match json_as_str(t) {
                        Some(s) => Some(s),
                        None => {
                            return Err(
                                Error::Json {
                                    reason: "field `ta_url` must be a string".to_string(),
                                },
                            );
                        },
                    }
                }
            },
        };
        Ok(SignerInfo { alg, sign_cert, private_key, ta_url })
    }

    /// The signing algorithm this description names, read from its tag
    /// without regard to letter case; a tag outside the fixed set is an
    /// `Other`-class configuration failure.
    pub fn alg(&self) -> (r: Result<SigningAlg, Error>)
        ensures
            match r {
                Ok(a) => spec_parse_alg(self.alg@) == Some(a),
                Err(e) => {
                    &&& spec_parse_alg(self.alg@) is None
                    &&& e.spec_kind() == ErrorKind::Other
                },
            },
    {
        SigningAlg::from_str(self.alg.as_str())
    }
}

} // verus!
