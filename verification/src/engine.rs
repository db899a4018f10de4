use vstd::prelude::*;

use crate::callback_signer::CallbackSigner;
use crate::callback_signer::SignerCallback;
use crate::error::{Error, ErrorKind, FaultFlags};

use c2pa::Builder as EngineApiBuilder;
use c2pa::CallbackSigner as EngineApiSigner;
use c2pa::Error as EngineApiError;
use c2pa::Reader as EngineApiReader;
use c2pa::SigningAlg as EngineApiAlg;

verus! {

#[verifier::external_type_specification]
#[verifier::external_body]
pub struct ExEngineReader(EngineApiReader);

#[verifier::external_type_specification]
#[verifier::external_body]
pub struct ExEngineBuilder(EngineApiBuilder);

#[verifier::external_type_specification]
#[verifier::external_body]
pub struct ExEngineError(EngineApiError);

#[verifier::external_type_specification]
#[verifier::external_body]
pub struct ExEngineSigningAlg(EngineApiAlg);

#[verifier::external_type_specification]
#[verifier::external_body]
pub struct ExEngineCallbackSigner(EngineApiSigner);

/// Relies on c2pa::Error's Display: the engine's diagnostic text for the
/// failure.
#[verifier::external_body]
fn engine_error_text(e: &c2pa::Error) -> String {
    e.to_string()
}

/// Relies on c2pa::Error: true exactly for AssertionMissing.
#[verifier::external_body]
fn engine_is_assertion_missing(e: &c2pa::Error) -> bool {
    matches!(e, c2pa::Error::AssertionMissing { .. })
}

/// Relies on c2pa::Error: true exactly for the invalid-assertion variants
/// AssertionInvalidRedaction, AssertionRedactionNotFound and
/// AssertionSpecificError.
#[verifier::external_body]
fn engine_is_assertion(e: &c2pa::Error) -> bool {
    matches!(
        e,
        c2pa::Error::AssertionInvalidRedaction
            | c2pa::Error::AssertionRedactionNotFound
            | c2pa::Error::AssertionSpecificError(_)
    )
}

/// Relies on c2pa::Error: true exactly for the malformed-manifest variants
/// ClaimUnsigned, ClaimMissingSignatureBox, ClaimVersion,
/// ClaimInvalidContent, ClaimMissingHardBinding, ClaimMultipleHardBinding,
/// ClaimSelfRedact, ClaimDisallowedRedaction, UpdateManifestInvalid,
/// TooManyManifestStores and TooManyAssertions.
#[verifier::external_body]
fn engine_is_manifest(e: &c2pa::Error) -> bool {
    matches!(
        e,
        c2pa::Error::ClaimUnsigned
            | c2pa::Error::ClaimMissingSignatureBox
            | c2pa::Error::ClaimVersion
            | c2pa::Error::ClaimInvalidContent
            | c2pa::Error::ClaimMissingHardBinding
            | c2pa::Error::ClaimMultipleHardBinding
            | c2pa::Error::ClaimSelfRedact
            | c2pa::Error::ClaimDisallowedRedaction
            | c2pa::Error::UpdateManifestInvalid
            | c2pa::Error::TooManyManifestStores
            | c2pa::Error::TooManyAssertions { .. }
    )
}

/// Relies on c2pa::Error: true exactly for the manifest-not-found variants
/// ClaimMissing and JumbfNotFound.
#[verifier::external_body]
fn engine_is_manifest_missing(e: &c2pa::Error) -> bool {
    matches!(e, c2pa::Error::ClaimMissing { .. } | c2pa::Error::JumbfNotFound)
}

/// Relies on c2pa::Error: true exactly for the decode-failure variants
/// AssertionDecoding and ClaimDecoding.
#[verifier::external_body]
fn engine_is_decoding(e: &c2pa::Error) -> bool {
    matches!(e, c2pa::Error::AssertionDecoding(_) | c2pa::Error::ClaimDecoding(_))
}

/// Relies on c2pa::Error: true exactly for the encode-failure variants
/// AssertionEncoding, XmlWriteError and ClaimEncoding.
#[verifier::external_body]
fn engine_is_encoding(e: &c2pa::Error) -> bool {
    matches!(
        e,
        c2pa::Error::AssertionEncoding(_) | c2pa::Error::XmlWriteError | c2pa::Error::ClaimEncoding
    )
}

/// Relies on c2pa::Error: true exactly for the certificate, timestamp and
/// cryptographic-signature variants CoseSignatureAlgorithmNotSupported,
/// CoseX5ChainMissing, CoseInvalidCert, CoseSignature, CoseVerifier,
/// CoseTimeStampGeneration, CoseSigboxTooSmall, CoseNoCerts,
/// InvalidEcdsaSignature, InvalidSigningKey, UnknownAlgorithm,
/// FailedToRemoteSign, TimeStampError, RawSignatureValidationError,
/// RawSignerError, CertificateProfileError, CertificateTrustError and
/// InvalidCertificateError.
#[verifier::external_body]
fn engine_is_signature(e: &c2pa::Error) -> bool {
    matches!(
        e,
        c2pa::Error::CoseSignatureAlgorithmNotSupported | c2pa::Error::CoseX5ChainMissing
            | c2pa::Error::CoseInvalidCert | c2pa::Error::CoseSignature
            | c2pa::Error::CoseVerifier | c2pa::Error::CoseTimeStampGeneration
            | c2pa::Error::CoseSigboxTooSmall | c2pa::Error::CoseNoCerts
            | c2pa::Error::InvalidEcdsaSignature | c2pa::Error::InvalidSigningKey
            | c2pa::Error::UnknownAlgorithm | c2pa::Error::FailedToRemoteSign
            | c2pa::Error::TimeStampError(_) | c2pa::Error::RawSignatureValidationError(_)
            | c2pa::Error::RawSignerError(_) | c2pa::Error::CertificateProfileError(_)
            | c2pa::Error::CertificateTrustError(_) | c2pa::Error::InvalidCertificateError(_)
    )
}

/// Relies on c2pa::Error: true exactly for the remote-manifest variants
/// RemoteManifestFetch and RemoteManifestUrl.
#[verifier::external_body]
fn engine_is_remote_manifest(e: &c2pa::Error) -> bool {
    matches!(e, c2pa::Error::RemoteManifestFetch(_) | c2pa::Error::RemoteManifestUrl(_))
}

/// Relies on c2pa::Error: true exactly for IoError.
#[verifier::external_body]
fn engine_is_io(e: &c2pa::Error) -> bool {
    matches!(e, c2pa::Error::IoError(_))
}

/// Relies on c2pa::Error: true exactly for JsonError.
#[verifier::external_body]
fn engine_is_json(e: &c2pa::Error) -> bool {
    matches!(e, c2pa::Error::JsonError(_))
}

/// Relies on c2pa::Error: true exactly for the missing-resource variants
/// NotFound, ResourceNotFound, MissingDataBox and IngredientNotFound.
#[verifier::external_body]
fn engine_is_resource_missing(e: &c2pa::Error) -> bool {
    matches!(
        e,
        c2pa::Error::NotFound
            | c2pa::Error::ResourceNotFound(_)
            | c2pa::Error::MissingDataBox
            | c2pa::Error::IngredientNotFound
    )
}

/// Relies on c2pa::Error: true exactly for FileNotFound.
#[verifier::external_body]
fn engine_is_file_missing(e: &c2pa::Error) -> bool {
    matches!(e, c2pa::Error::FileNotFound(_))
}

/// Relies on c2pa::Error: true exactly for the unsupported-operation
/// variants UnsupportedType, NotImplemented and XmpNotSupported.
#[verifier::external_body]
fn engine_is_not_supported(e: &c2pa::Error) -> bool {
    matches!(
        e,
        c2pa::Error::UnsupportedType | c2pa::Error::NotImplemented(_) | c2pa::Error::XmpNotSupported
    )
}

/// Relies on c2pa::Error: true exactly for the validation-failure variants
/// ClaimVerification, InvalidClaim, JumbfParseError, HashMismatch,
/// ValidationRule, C2PAValidation, InvalidManifest and
/// VerifiableCredentialInvalid.
#[verifier::external_body]
fn engine_is_verify(e: &c2pa::Error) -> bool {
    matches!(
        e,
        c2pa::Error::ClaimVerification(_) | c2pa::Error::InvalidClaim(_)
            | c2pa::Error::JumbfParseError(_) | c2pa::Error::HashMismatch(_)
            | c2pa::Error::ValidationRule(_) | c2pa::Error::C2PAValidation(_)
            | c2pa::Error::InvalidManifest(_) | c2pa::Error::VerifiableCredentialInvalid
    )
}

/// Raise one flag per semantic class an engine failure falls into; a
/// failure outside every class raises none and will be reported
/// unclassified.
fn engine_fault_flags(e: &c2pa::Error) -> FaultFlags {
    FaultFlags {
        assertion_missing: engine_is_assertion_missing(e),
        assertion: engine_is_assertion(e),
        manifest: engine_is_manifest(e),
        manifest_missing: engine_is_manifest_missing(e),
        decoding: engine_is_decoding(e),
        encoding: engine_is_encoding(e),
        signature: engine_is_signature(e),
        remote_manifest: engine_is_remote_manifest(e),
        io: engine_is_io(e),
        json: engine_is_json(e),
        resource_missing: engine_is_resource_missing(e),
        file_missing: engine_is_file_missing(e),
        not_supported: engine_is_not_supported(e),
        verify: engine_is_verify(e),
    }
}

/// Map one engine failure into the boundary taxonomy: classify it by its
/// semantic class and keep its diagnostic text.  Every engine failure maps
/// to exactly one category, and never to the lock-contention one.  This is
/// the single classification entry: anything that receives an engine
/// failure directly reports it through here, so one cause always lands in
/// one category.
pub fn engine_error(e: c2pa::Error) -> (r: Error)
    ensures
        r.spec_kind() != ErrorKind::LockContention,
{
    let reason = engine_error_text(&e);
    let flags = engine_fault_flags(&e);
    Error::classified(flags, reason)
}

/// Relies on c2pa::SigningAlg: the engine's tag for each algorithm of the
/// fixed set.
#[verifier::external_body]
fn alg_to_engine(alg: crate::alg::SigningAlg) -> c2pa::SigningAlg {
    match alg {
        crate::alg::SigningAlg::Es256 => c2pa::SigningAlg::Es256,
        crate::alg::SigningAlg::Es384 => c2pa::SigningAlg::Es384,
        crate::alg::SigningAlg::Es512 => c2pa::SigningAlg::Es512,
        crate::alg::SigningAlg::Ps256 => c2pa::SigningAlg::Ps256,
        crate::alg::SigningAlg::Ps384 => c2pa::SigningAlg::Ps384,
        crate::alg::SigningAlg::Ps512 => c2pa::SigningAlg::Ps512,
        crate::alg::SigningAlg::Ed25519 => c2pa::SigningAlg::Ed25519,
    }
}

/// Relies on c2pa::CallbackSigner::new and set_tsa_url: an engine-side
/// signer that forwards each engine signing request to the bridge signer's
/// capability and carries its algorithm, certificate chain, reserved size
/// and timestamp-authority URL.  A capability failure is handed to the
/// engine as a raw-signer failure, so it surfaces in the signature class.
#[verifier::external_body]
fn engine_signer<C: SignerCallback + Clone + 'static>(signer: &CallbackSigner<C>) -> (
    c2pa::CallbackSigner
) {
    let cb = signer.callback.clone();
    let f = move |_context, data: &[u8]| {
        cb.sign(data.to_vec()).map_err(|e| {
            c2pa::Error::RawSignerError(
                c2pa::crypto::raw_signature::RawSignerError::CryptoLibraryError(e.reason()),
            )
        })
    };
    let mut cs = c2pa::CallbackSigner::new(f, alg_to_engine(signer.alg), signer.certs.clone());
    cs.reserve_size = signer.reserve;
    if let Some(url) = &signer.tsa_url {
        cs = cs.set_tsa_url(url.clone());
    }
    cs
}

/// Relies on c2pa::Reader::default: an engine parser holding no parsed
/// manifest yet.
#[verifier::external_body]
pub(crate) fn engine_reader_default() -> c2pa::Reader {
    c2pa::Reader::default()
}

/// Relies on c2pa::Reader::from_stream: parse a structured asset of the
/// given format from the given bytes.
#[verifier::external_body]
pub(crate) fn engine_reader_from_bytes(format: &str, data: &Vec<u8>) -> Result<
    c2pa::Reader,
    c2pa::Error,
> {
    c2pa::Reader::from_stream(format, std::io::Cursor::new(data.as_slice()))
}

/// Relies on c2pa::Reader's Display: the manifest report as pretty JSON.
#[verifier::external_body]
pub(crate) fn engine_reader_report(r: &c2pa::Reader) -> String {
    r.to_string()
}

/// Relies on c2pa::Reader::json: the manifest report as JSON.
#[verifier::external_body]
pub(crate) fn engine_reader_json(r: &c2pa::Reader) -> String {
    r.json()
}

/// Relies on c2pa::Reader::resource_to_stream: the bytes of the named
/// resource.
#[verifier::external_body]
pub(crate) fn engine_reader_resource(r: &c2pa::Reader, uri: &str) -> Result<Vec<u8>, c2pa::Error> {
    let mut out = std::io::Cursor::new(Vec::new());
    r.resource_to_stream(uri, &mut out)?;
    Ok(out.into_inner())
}

/// Relies on c2pa::Builder::new: an engine assembler holding an empty
/// manifest definition.
#[verifier::external_body]
pub(crate) fn engine_builder_default() -> c2pa::Builder {
    c2pa::Builder::new()
}

/// Relies on c2pa::Builder::from_json: an engine assembler configured from
/// a JSON manifest definition.
#[verifier::external_body]
pub(crate) fn engine_builder_from_json(json: &str) -> Result<c2pa::Builder, c2pa::Error> {
    c2pa::Builder::from_json(json)
}

/// Relies on c2pa::Builder::add_resource: store the bytes under the given
/// URI in the assembler's resource store.
#[verifier::external_body]
pub(crate) fn engine_builder_add_resource(
    b: &mut c2pa::Builder,
    uri: &str,
    data: &Vec<u8>,
) -> Result<(), c2pa::Error> {
    b.add_resource(uri, &mut std::io::Cursor::new(data.as_slice())).map(|_| ())
}

/// Relies on c2pa::Builder::add_ingredient_from_stream: add an ingredient
/// described by the JSON definition, reading its asset from the bytes.
#[verifier::external_body]
pub(crate) fn engine_builder_add_ingredient(
    b: &mut c2pa::Builder,
    ingredient_json: &str,
    format: &str,
    data: &Vec<u8>,
) -> Result<(), c2pa::Error> {
    b.add_ingredient_from_stream(ingredient_json, format, &mut std::io::Cursor::new(
        data.as_slice(),
    )).map(|_| ())
}

/// Relies on c2pa::Builder::to_archive: the assembler's state serialized as
/// archive bytes.
#[verifier::external_body]
pub(crate) fn engine_builder_to_archive(b: &c2pa::Builder) -> Result<Vec<u8>, c2pa::Error> {
    let mut out = std::io::Cursor::new(Vec::new());
    b.to_archive(&mut out)?;
    Ok(out.into_inner())
}

/// Relies on c2pa::Builder::from_archive: an engine assembler restored from
/// archive bytes.
#[verifier::external_body]
pub(crate) fn engine_builder_from_archive(data: &Vec<u8>) -> Result<c2pa::Builder, c2pa::Error> {
    c2pa::Builder::from_archive(std::io::Cursor::new(data.as_slice()))
}

/// Relies on c2pa::Builder::sign: sign the source asset with an engine-side
/// signer built from the bridge signer, returning the manifest bytes the
/// engine produced and the signed asset it wrote.
#[verifier::external_body]
pub(crate) fn engine_builder_sign<C: SignerCallback + Clone + 'static>(
    b: &mut c2pa::Builder,
    signer: &CallbackSigner<C>,
    format: &str,
    source: &Vec<u8>,
) -> Result<(Vec<u8>, Vec<u8>), c2pa::Error> {
    let cs = engine_signer(signer);
    let mut src = std::io::Cursor::new(source.as_slice());
    let mut dst = std::io::Cursor::new(Vec::new());
    let manifest = b.sign(&cs, format, &mut src, &mut dst)?;
    Ok((manifest, dst.into_inner()))
}

/// Relies on c2pa::Builder::sign_file: sign the asset at the source path
/// with an engine-side signer built from the bridge signer, writing the
/// signed asset to the destination path.
#[verifier::external_body]
pub(crate) fn engine_builder_sign_file<C: SignerCallback + Clone + 'static>(
    b: &mut c2pa::Builder,
    signer: &CallbackSigner<C>,
    source: &str,
    dest: &str,
) -> Result<Vec<u8>, c2pa::Error> {
    let cs = engine_signer(signer);
    b.sign_file(&cs, source, dest)
}

} // verus!
