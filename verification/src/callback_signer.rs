use vstd::prelude::*;

use crate::alg::SigningAlg;
use crate::error::{Error, ErrorKind};
use crate::signer_info::SignerConfig;

verus! {

/// The signing capability a host implements: one operation that signs the
/// given bytes and returns the signature, or fails with a signing error.
/// The private key never crosses this interface; only the finished
/// signature does.  Nothing is assumed about the bytes an implementation
/// returns.
pub trait SignerCallback: Send + Sync {
    /// Sign the given bytes and return the signature.
    fn sign(&self, bytes: Vec<u8>) -> Result<Vec<u8>, Error>;
}

/// The reserved-size default for a certificate-mode signer: a generous
/// budget sized to comfortably hold a signature together with a certificate
/// chain.
pub const DEFAULT_RESERVE_SIZE: usize = 20000;

/// The DER contents of each PEM block in `input`, one entry per block, in
/// the order the blocks appear.
pub uninterp spec fn pem_contents_of(input: Seq<u8>) -> Seq<Seq<u8>>;

/// Whether `input` parses as a sequence of PEM blocks: a pure function of
/// the bytes alone.
pub uninterp spec fn pem_parses(input: Seq<u8>) -> bool;

/// Relies on pem::parse_many: whether parsing succeeds depends on the
/// input bytes alone; on success, one DER entry per PEM block found in the
/// input, in order; an input in which no block is found — the empty input
/// in particular — yields an empty list rather than an error.
#[verifier::external_body]
fn pem_parse_many(input: &Vec<u8>) -> (r: Result<Vec<Vec<u8>>, String>)
    ensures
        (r matches Ok(_)) == pem_parses(input@),
        match r {
            Ok(ders) => {
                &&& ders.deep_view() == pem_contents_of(input@)
                &&& (input@.len() == 0 ==> ders@.len() == 0)
            },
            Err(_) => true,
        },
{
    match pem::parse_many(input.as_slice()) {
        Ok(pems) => Ok(pems.into_iter().map(|p| p.into_contents()).collect()),
        Err(e) => Err(e.to_string()),
    }
}

/// Adapts a host signing capability to the signer surface the engine
/// expects.  The flavor is fixed permanently at construction: a
/// certificate-mode signer returns a raw signature that the engine wraps
/// together with the configured certificate chain, while a direct-mode
/// signer returns a complete, ready-to-embed signature structure and
/// supplies no certificates at all.
pub struct CallbackSigner<C: SignerCallback> {
    pub(crate) callback: C,
    pub(crate) alg: SigningAlg,
    pub(crate) certs: Vec<u8>,
    pub(crate) tsa_url: Option<String>,
    pub(crate) reserve: usize,
    pub(crate) direct: bool,
}

impl<C: SignerCallback> CallbackSigner<C> {
    /// Whether this signer returns complete signature structures.
    pub closed spec fn is_direct(&self) -> bool {
        self.direct
    }

    /// The configured signing algorithm.
    pub closed spec fn spec_alg(&self) -> SigningAlg {
        self.alg
    }

    /// The configured certificate chain, as concatenated PEM blocks.
    pub closed spec fn certs_pem(&self) -> Seq<u8> {
        self.certs@
    }

    /// The byte budget the engine reserves for the embedded signature.
    pub closed spec fn spec_reserve(&self) -> int {
        self.reserve as int
    }

    /// The configured timestamp-authority URL, if any.
    pub closed spec fn spec_tsa(&self) -> Option<String> {
        self.tsa_url
    }

    /// A certificate-mode signer: the callback returns a raw signature and
    /// the engine builds the signature structure around it together with
    /// the configured certificate chain.
    pub fn new(callback: C, config: SignerConfig) -> (s: Self)
        ensures
            !s.is_direct(),
            s.spec_alg() == config.alg,
            s.certs_pem() == config.certs@,
            s.spec_tsa() == config.time_authority_url,
            s.spec_reserve() == DEFAULT_RESERVE_SIZE,
    {
        CallbackSigner {
            callback,
            alg: config.alg,
            certs: config.certs,
            tsa_url: config.time_authority_url,
            reserve: DEFAULT_RESERVE_SIZE,
            direct: false,
        }
    }

    /// A direct-mode signer: the callback returns a complete signature
    /// structure, so no certificates are configured, and the caller must
    /// supply the reserved-size hint the engine needs before the real
    /// signature exists.
    pub fn new_from_signer(callback: C, alg: SigningAlg, reserve_size: u32) -> (s: Self)
        ensures
            s.is_direct(),
            s.spec_alg() == alg,
            s.certs_pem() == Seq::<u8>::empty(),
            s.spec_tsa() is None,
            s.spec_reserve() == reserve_size,
    {
        CallbackSigner {
            callback,
            alg,
            certs: Vec::new(),
            tsa_url: None,
            reserve: reserve_size as usize,
            direct: true,
        }
    }

    /// Invoke the signing capability on exactly the given bytes and return
    /// its output unmodified.  A capability failure propagates as a
    /// `Signature`-class failure, synchronously and without retry.
    pub fn sign(&self, data: Vec<u8>) -> (r: Result<Vec<u8>, Error>)
        ensures
            match r {
                Ok(_) => true,
                Err(e) => e.spec_kind() == ErrorKind::Signature,
            },
    {
        match self.callback.sign(data) {
            Ok(sig) => Ok(sig),
            Err(e) => Err(Error::Signature { reason: e.reason() }),
        }
    }

    /// The configured signing algorithm.
    pub fn alg(&self) -> (a: SigningAlg)
        ensures
            a == self.spec_alg(),
    {
        self.alg
    }

    /// The certificate chain as one DER entry per configured PEM block.  A
    /// direct-mode signer always returns the empty list, since it needs no
    /// certificates.  A certificate-mode signer re-parses its stored chain,
    /// and succeeds exactly when the chain parses and holds at least one
    /// block: a malformed chain, and equally a chain without a single
    /// certificate in it, is an `Other`-class configuration failure — never
    /// an empty list the engine would silently accept.
    pub fn certs(&self) -> (r: Result<Vec<Vec<u8>>, Error>)
        ensures
            self.is_direct() ==> (r matches Ok(v) && v@.len() == 0),
            !self.is_direct() ==> ((r matches Ok(_)) <==> (pem_parses(self.certs_pem())
                && pem_contents_of(self.certs_pem()).len() > 0)),
            !self.is_direct() ==> match r {
                Ok(v) => {
                    &&& v.deep_view() == pem_contents_of(self.certs_pem())
                    &&& v@.len() > 0
                },
                Err(e) => e.spec_kind() == ErrorKind::Other,
            },
            (!self.is_direct() && self.certs_pem().len() == 0) ==> (r matches Err(_)),
    {
        if self.direct {
            return Ok(Vec::new());
        }
        match pem_parse_many(&self.certs) {
            Ok(ders) => {
                if ders.len() == 0 {
                    Err(Error::Other { reason: "no certificates configured".to_string() })
                } else {
                    Ok(ders)
                }
            },
            Err(reason) => Err(Error::Other { reason }),
        }
    }

    /// The byte budget the engine must reserve for the embedded signature
    /// before the real signature is produced: the fixed generous default in
    /// certificate mode, the supplied hint in direct mode.
    pub fn reserve_size(&self) -> (n: usize)
        ensures
            n == self.spec_reserve(),
    {
        self.reserve
    }

    /// The timestamp-authority URL to call when the engine requests
    /// time-stamping, if one was configured.
    pub fn time_authority_url(&self) -> (r: Option<String>)
        ensures
            r == self.spec_tsa(),
    {
        match &self.tsa_url {
            Some(url) => Some(url.clone()),
            None => None,
        }
    }

    /// Whether the engine must treat this signer's output as final: true
    /// exactly for a direct-mode signer, whose output the engine embeds
    /// without wrapping or reinterpreting it.
    pub fn direct_cose_handling(&self) -> (d: bool)
        ensures
            d == self.is_direct(),
    {
        self.direct
    }
}

} // verus!
