use vstd::prelude::*;

verus! {

/// The stable category of an [`Error`], the part of an error that a host
/// builds control flow on.  One category exists for every way the bridge
/// reports failure; the message text is diagnostic only.
#[derive(Debug, Clone, Copy, PartialEq, Eq, Structural)]
pub enum ErrorKind {
    Assertion,
    AssertionNotFound,
    Decoding,
    Encoding,
    FileNotFound,
    Io,
    Json,
    Manifest,
    ManifestNotFound,
    NotSupported,
    Other,
    RemoteManifest,
    ResourceNotFound,
    LockContention,
    Signature,
    Verify,
}

/// Every error this library reports across the boundary.  Each variant is one
/// stable category; `reason` carries the diagnostic text of the underlying
/// failure.
#[derive(Debug, Clone)]
pub enum Error {
    Assertion { reason: String },
    AssertionNotFound { reason: String },
    Decoding { reason: String },
    Encoding { reason: String },
    FileNotFound { reason: String },
    Io { reason: String },
    Json { reason: String },
    Manifest { reason: String },
    ManifestNotFound { reason: String },
    NotSupported { reason: String },
    Other { reason: String },
    RemoteManifest { reason: String },
    ResourceNotFound { reason: String },
    RwLock,
    Signature { reason: String },
    Verify { reason: String },
}

impl Error {
    /// The category of this error.
    pub open spec fn spec_kind(&self) -> ErrorKind {
        match self {
            Error::Assertion { .. } => ErrorKind::Assertion,
            Error::AssertionNotFound { .. } => ErrorKind::AssertionNotFound,
            Error::Decoding { .. } => ErrorKind::Decoding,
            Error::Encoding { .. } => ErrorKind::Encoding,
            Error::FileNotFound { .. } => ErrorKind::FileNotFound,
            Error::Io { .. } => ErrorKind::Io,
            Error::Json { .. } => ErrorKind::Json,
            Error::Manifest { .. } => ErrorKind::Manifest,
            Error::ManifestNotFound { .. } => ErrorKind::ManifestNotFound,
            Error::NotSupported { .. } => ErrorKind::NotSupported,
            Error::Other { .. } => ErrorKind::Other,
            Error::RemoteManifest { .. } => ErrorKind::RemoteManifest,
            Error::ResourceNotFound { .. } => ErrorKind::ResourceNotFound,
            Error::RwLock => ErrorKind::LockContention,
            Error::Signature { .. } => ErrorKind::Signature,
            Error::Verify { .. } => ErrorKind::Verify,
        }
    }

    /// The diagnostic text of this error; empty for lock contention, which
    /// carries none.
    pub open spec fn spec_reason(&self) -> Seq<char> {
        match self {
            Error::Assertion { reason } => reason@,
            Error::AssertionNotFound { reason } => reason@,
            Error::Decoding { reason } => reason@,
            Error::Encoding { reason } => reason@,
            Error::FileNotFound { reason } => reason@,
            Error::Io { reason } => reason@,
            Error::Json { reason } => reason@,
            Error::Manifest { reason } => reason@,
            Error::ManifestNotFound { reason } => reason@,
            Error::NotSupported { reason } => reason@,
            Error::Other { reason } => reason@,
            Error::RemoteManifest { reason } => reason@,
            Error::ResourceNotFound { reason } => reason@,
            Error::RwLock => Seq::<char>::empty(),
            Error::Signature { reason } => reason@,
            Error::Verify { reason } => reason@,
        }
    }

    pub fn kind(&self) -> (k: ErrorKind)
        ensures
            k == self.spec_kind(),
    {
        match self {
            Error::Assertion { .. } => ErrorKind::Assertion,
            Error::AssertionNotFound { .. } => ErrorKind::AssertionNotFound,
            Error::Decoding { .. } => ErrorKind::Decoding,
            Error::Encoding { .. } => ErrorKind::Encoding,
            Error::FileNotFound { .. } => ErrorKind::FileNotFound,
            Error::Io { .. } => ErrorKind::Io,
            Error::Json { .. } => ErrorKind::Json,
            Error::Manifest { .. } => ErrorKind::Manifest,
            Error::ManifestNotFound { .. } => ErrorKind::ManifestNotFound,
            Error::NotSupported { .. } => ErrorKind::NotSupported,
            Error::Other { .. } => ErrorKind::Other,
            Error::RemoteManifest { .. } => ErrorKind::RemoteManifest,
            Error::ResourceNotFound { .. } => ErrorKind::ResourceNotFound,
            Error::RwLock => ErrorKind::LockContention,
            Error::Signature { .. } => ErrorKind::Signature,
            Error::Verify { .. } => ErrorKind::Verify,
        }
    }

    pub fn reason(&self) -> (r: String)
        ensures
            r@ == self.spec_reason(),
    {
        match self {
            Error::Assertion { reason } => reason.clone(),
            Error::AssertionNotFound { reason } => reason.clone(),
            Error::Decoding { reason } => reason.clone(),
            Error::Encoding { reason } => reason.clone(),
            Error::FileNotFound { reason } => reason.clone(),
            Error::Io { reason } => reason.clone(),
            Error::Json { reason } => reason.clone(),
            Error::Manifest { reason } => reason.clone(),
            Error::ManifestNotFound { reason } => reason.clone(),
            Error::NotSupported { reason } => reason.clone(),
            Error::Other { reason } => reason.clone(),
            Error::RemoteManifest { reason } => reason.clone(),
            Error::ResourceNotFound { reason } => reason.clone(),
            Error::RwLock => String::new(),
            Error::Signature { reason } => reason.clone(),
            Error::Verify { reason } => reason.clone(),
        }
    }
}

/// One flag for each semantic class of engine failure.  Exactly which engine
/// variants raise which flag is recorded where the flags are computed; this
/// type only fixes the classification policy applied to them.
#[derive(Debug, Clone, Copy, PartialEq, Eq, Structural)]
pub struct FaultFlags {
    /// A missing assertion, reported without diagnostic text.
    pub assertion_missing: bool,
    /// An assertion whose content or redaction is invalid.
    pub assertion: bool,
    /// A malformed or inconsistent manifest structure.
    pub manifest: bool,
    /// A manifest that could not be located.
    pub manifest_missing: bool,
    /// A failure to decode stored data.
    pub decoding: bool,
    /// A failure to encode data for storage.
    pub encoding: bool,
    /// A certificate, timestamp or cryptographic-signature failure.
    pub signature: bool,
    /// A failure to fetch or address a remotely stored manifest.
    pub remote_manifest: bool,
    /// A generic input/output failure.
    pub io: bool,
    /// A JSON (de)serialization failure.
    pub json: bool,
    /// An auxiliary resource that could not be located.
    pub resource_missing: bool,
    /// A file that could not be located.
    pub file_missing: bool,
    /// An operation the engine does not support.
    pub not_supported: bool,
    /// A validation failure while verifying a claim.
    pub verify: bool,
}

/// The classification policy: the first raised flag, in the fixed order
/// below, decides the category; when no flag is raised the failure is
/// unclassified and falls to `Other`.  The policy is total: every
/// combination of flags yields exactly one category.
pub open spec fn spec_flag_kind(flags: FaultFlags) -> ErrorKind {
    if flags.assertion_missing {
        ErrorKind::AssertionNotFound
    } else if flags.assertion {
        ErrorKind::Assertion
    } else if flags.manifest {
        ErrorKind::Manifest
    } else if flags.manifest_missing {
        ErrorKind::ManifestNotFound
    } else if flags.decoding {
        ErrorKind::Decoding
    } else if flags.encoding {
        ErrorKind::Encoding
    } else if flags.signature {
        ErrorKind::Signature
    } else if flags.remote_manifest {
        ErrorKind::RemoteManifest
    } else if flags.io {
        ErrorKind::Io
    } else if flags.json {
        ErrorKind::Json
    } else if flags.resource_missing {
        ErrorKind::ResourceNotFound
    } else if flags.file_missing {
        ErrorKind::FileNotFound
    } else if flags.not_supported {
        ErrorKind::NotSupported
    } else if flags.verify {
        ErrorKind::Verify
    } else {
        ErrorKind::Other
    }
}

impl Error {
    /// Build the boundary error for one classified engine failure.  The
    /// category follows [`spec_flag_kind`]; the diagnostic text is kept
    /// verbatim, except that a missing assertion is reported without text.
    /// This mapping is total: every flag combination produces exactly one
    /// category, and never the lock-contention one, which no engine failure
    /// raises.
    pub fn classified(flags: FaultFlags, reason: String) -> (e: Error)
        ensures
            e.spec_kind() == spec_flag_kind(flags),
            e.spec_kind() != ErrorKind::LockContention,
            e.spec_reason() == if flags.assertion_missing {
                Seq::<char>::empty()
            } else {
                reason@
            },
    {
        if flags.assertion_missing {
            Error::AssertionNotFound { reason: String::new() }
        } else if flags.assertion {
            Error::Assertion { reason }
        } else if flags.manifest {
            Error::Manifest { reason }
        } else if flags.manifest_missing {
            Error::ManifestNotFound { reason }
        } else if flags.decoding {
            Error::Decoding { reason }
        } else if flags.encoding {
            Error::Encoding { reason }
        } else if flags.signature {
            Error::Signature { reason }
        } else if flags.remote_manifest {
            Error::RemoteManifest { reason }
        } else if flags.io {
            Error::Io { reason }
        } else if flags.json {
            Error::Json { reason }
        } else if flags.resource_missing {
            Error::ResourceNotFound { reason }
        } else if flags.file_missing {
            Error::FileNotFound { reason }
        } else if flags.not_supported {
            Error::NotSupported { reason }
        } else if flags.verify {
            Error::Verify { reason }
        } else {
            Error::Other { reason }
        }
    }
}

} // verus!
