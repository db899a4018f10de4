use vstd::prelude::*;

use crate::callback_signer::{CallbackSigner, SignerCallback};
use crate::engine;
use crate::error::{Error, ErrorKind};
use crate::lock::{Access, SessionLock};
use crate::streams::{read_to_end, stream_written, write_all, Stream};

verus! {

/// Whether one more shared (read) hold of a session guard could be taken.
pub open spec fn can_share(a: Access) -> bool {
    match a {
        Access::Idle => true,
        Access::Shared(n) => n < u64::MAX,
        Access::Exclusive => false,
    }
}

/// One parsing session: the engine's parser behind the non-blocking access
/// discipline.  Every operation attempts its access without blocking and
/// fails at once with a lock-contention error when the session is already
/// in use, so a callback-driven call stack can never deadlock on it.
pub struct Reader {
    lock: SessionLock,
    engine: c2pa::Reader,
}

impl Reader {
    /// Who currently holds this session's guard.
    pub closed spec fn guard(&self) -> Access {
        self.lock.access()
    }

    pub closed spec fn wf(&self) -> bool {
        self.lock.wf()
    }

    /// A fresh session holding no parsed manifest, with a free guard.
    pub fn new() -> (r: Self)
        ensures
            r.wf(),
            r.guard() == Access::Idle,
    {
        Reader { lock: SessionLock::new(), engine: engine::engine_reader_default() }
    }

    /// Parse a structured asset of the given format from the capability,
    /// replace any previously parsed state wholesale with the result, and
    /// return the manifest report.  The exclusive hold is taken before
    /// anything else and covers the whole operation, the drain of the
    /// capability included: a session already in use fails at once with
    /// the lock-contention error, touches neither the capability nor the
    /// stored state, and that error is raised for no other cause.  The
    /// capability is drained from its current position; its stored bytes
    /// are never changed.
    pub fn from_stream<S: Stream>(&mut self, format: &str, stream: &mut S) -> (r: Result<
        String,
        Error,
    >)
        requires
            old(self).wf(),
            old(stream).inv(),
            0 <= old(stream).pos(),
        ensures
            final(self).wf(),
            final(self).guard() == old(self).guard(),
            final(stream).inv(),
            0 <= final(stream).pos(),
            final(stream).exact() == old(stream).exact(),
            final(stream).data() == old(stream).data(),
            !(old(self).guard() matches Access::Idle) ==> (r matches Err(e) && e matches Error::RwLock)
                && *final(stream) == *old(stream),
            (old(self).guard() matches Access::Idle && old(stream).exact() && old(stream).pos()
                <= old(stream).data().len()) ==> final(stream).pos() == old(
                stream,
            ).data().len(),
            match r {
                Ok(_) => old(self).guard() matches Access::Idle,
                Err(e) => (e.spec_kind() == ErrorKind::LockContention <==> !(old(self).guard()
                    matches Access::Idle)),
            },
    {
        if self.lock.try_exclusive() {
            let data = match read_to_end(stream) {
                Ok(d) => d,
                Err(e) => {
                    self.lock.release_exclusive();
                    return Err(e);
                },
            };
            let parsed = match engine::engine_reader_from_bytes(format, &data) {
                Ok(p) => p,
                Err(e) => {
                    self.lock.release_exclusive();
                    return Err(engine::engine_error(e));
                },
            };
            let report = engine::engine_reader_report(&parsed);
            self.engine = parsed;
            self.lock.release_exclusive();
            Ok(report)
        } else {
            Err(Error::RwLock)
        }
    }

    /// The manifest report of the parsed state, read under shared access:
    /// the call succeeds exactly when no mutation is in progress, and fails
    /// with the lock-contention error otherwise.
    pub fn json(&mut self) -> (r: Result<String, Error>)
        requires
            old(self).wf(),
        ensures
            final(self).wf(),
            final(self).guard() == old(self).guard(),
            (r matches Ok(_)) <==> can_share(old(self).guard()),
            r matches Err(e) ==> e matches Error::RwLock,
    {
        if self.lock.try_shared() {
            let report = engine::engine_reader_json(&self.engine);
            self.lock.release_shared();
            Ok(report)
        } else {
            Err(Error::RwLock)
        }
    }

    /// Write the bytes of the named resource of the parsed state to the
    /// capability and return how many bytes that was.  Runs under shared
    /// access: a session already being mutated fails with the
    /// lock-contention error, which is raised for no other cause.
    pub fn resource_to_stream<S: Stream>(&mut self, uri: &str, stream: &mut S) -> (r: Result<
        u64,
        Error,
    >)
        requires
            old(self).wf(),
            old(stream).inv(),
            0 <= old(stream).pos(),
        ensures
            final(self).wf(),
            final(self).guard() == old(self).guard(),
            final(stream).inv(),
            0 <= final(stream).pos(),
            final(stream).exact() == old(stream).exact(),
            match r {
                Ok(n) => {
                    &&& can_share(old(self).guard())
                    &&& exists|b: Seq<u8>|
                        {
                            &&& b.len() == n
                            &&& final(stream).data() == stream_written(
                                old(stream).data(),
                                old(stream).pos(),
                                b,
                            )
                            &&& final(stream).pos() == old(stream).pos() + n
                        }
                },
                Err(e) => (e.spec_kind() == ErrorKind::LockContention ==> !can_share(
                    old(self).guard(),
                )),
            },
            !can_share(old(self).guard()) ==> (r matches Err(e) && e matches Error::RwLock)
                && *final(stream) == *old(stream),
    {
        if self.lock.try_shared() {
            let bytes = match engine::engine_reader_resource(&self.engine, uri) {
                Ok(b) => b,
                Err(e) => {
                    self.lock.release_shared();
                    return Err(engine::engine_error(e));
                },
            };
            let n = bytes.len();
            match write_all(stream, &bytes) {
                Ok(_) => {
                    self.lock.release_shared();
                    proof {
                        assert(final(stream).data() == stream_written(
                            old(stream).data(),
                            old(stream).pos(),
                            bytes@,
                        ));
                    }
                    Ok(n as u64)
                },
                Err(e) => {
                    self.lock.release_shared();
                    Err(e)
                },
            }
        } else {
            Err(Error::RwLock)
        }
    }
}

/// One assembly session: the engine's manifest assembler behind the
/// non-blocking access discipline.  Every mutation runs under an exclusive
/// hold that covers the whole operation, so the assembler is only ever
/// observed fully constructed; an operation finding the session already in
/// use fails at once with the lock-contention error instead of blocking.
pub struct Builder {
    lock: SessionLock,
    engine: c2pa::Builder,
}

impl Builder {
    /// Who currently holds this session's guard.
    pub closed spec fn guard(&self) -> Access {
        self.lock.access()
    }

    pub closed spec fn wf(&self) -> bool {
        self.lock.wf()
    }

    /// A fresh session holding an empty manifest definition, with a free
    /// guard.
    pub fn new() -> (r: Self)
        ensures
            r.wf(),
            r.guard() == Access::Idle,
    {
        Builder { lock: SessionLock::new(), engine: engine::engine_builder_default() }
    }

    /// Replace the session's state wholesale with one configured from the
    /// JSON manifest definition.  Runs under exclusive access: a session
    /// already in use fails with the lock-contention error, which is
    /// raised for no other cause.
    pub fn with_json(&mut self, json: &str) -> (r: Result<(), Error>)
        requires
            old(self).wf(),
        ensures
            final(self).wf(),
            final(self).guard() == old(self).guard(),
            match r {
                Ok(_) => old(self).guard() matches Access::Idle,
                Err(e) => (e.spec_kind() == ErrorKind::LockContention <==> !(old(self).guard()
                    matches Access::Idle)),
            },
    {
        if self.lock.try_exclusive() {
            match engine::engine_builder_from_json(json) {
                Ok(b) => {
                    self.engine = b;
                    self.lock.release_exclusive();
                    Ok(())
                },
                Err(e) => {
                    self.lock.release_exclusive();
                    Err(engine::engine_error(e))
                },
            }
        } else {
            Err(Error::RwLock)
        }
    }

    /// Add the capability's bytes to the session's resource store under the
    /// given URI.  The exclusive hold covers the whole operation, the
    /// drain of the capability included; a session already in use fails
    /// with the lock-contention error, which is raised for no other cause.
    pub fn add_resource<S: Stream>(&mut self, uri: &str, stream: &mut S) -> (r: Result<(), Error>)
        requires
            old(self).wf(),
            old(stream).inv(),
            0 <= old(stream).pos(),
        ensures
            final(self).wf(),
            final(self).guard() == old(self).guard(),
            final(stream).inv(),
            0 <= final(stream).pos(),
            final(stream).exact() == old(stream).exact(),
            final(stream).data() == old(stream).data(),
            match r {
                Ok(_) => old(self).guard() matches Access::Idle,
                Err(e) => (e.spec_kind() == ErrorKind::LockContention <==> !(old(self).guard()
                    matches Access::Idle)),
            },
            !(old(self).guard() matches Access::Idle) ==> *final(stream) == *old(stream),
    {
        if self.lock.try_exclusive() {
            let data = match read_to_end(stream) {
                Ok(d) => d,
                Err(e) => {
                    self.lock.release_exclusive();
                    return Err(e);
                },
            };
            match engine::engine_builder_add_resource(&mut self.engine, uri, &data) {
                Ok(_) => {
                    self.lock.release_exclusive();
                    Ok(())
                },
                Err(e) => {
                    self.lock.release_exclusive();
                    Err(engine::engine_error(e))
                },
            }
        } else {
            Err(Error::RwLock)
        }
    }

    /// Add an ingredient described by the JSON definition, reading its
    /// asset of the given format from the capability.  Runs like
    /// `add_resource`, under an exclusive hold covering the whole
    /// operation.
    pub fn add_ingredient<S: Stream>(
        &mut self,
        ingredient_json: &str,
        format: &str,
        stream: &mut S,
    ) -> (r: Result<(), Error>)
        requires
            old(self).wf(),
            old(stream).inv(),
            0 <= old(stream).pos(),
        ensures
            final(self).wf(),
            final(self).guard() == old(self).guard(),
            final(stream).inv(),
            0 <= final(stream).pos(),
            final(stream).exact() == old(stream).exact(),
            final(stream).data() == old(stream).data(),
            match r {
                Ok(_) => old(self).guard() matches Access::Idle,
                Err(e) => (e.spec_kind() == ErrorKind::LockContention <==> !(old(self).guard()
                    matches Access::Idle)),
            },
            !(old(self).guard() matches Access::Idle) ==> *final(stream) == *old(stream),
    {
        if self.lock.try_exclusive() {
            let data = match read_to_end(stream) {
                Ok(d) => d,
                Err(e) => {
                    self.lock.release_exclusive();
                    return Err(e);
                },
            };
            match engine::engine_builder_add_ingredient(
                &mut self.engine,
                ingredient_json,
                format,
                &data,
            ) {
                Ok(_) => {
                    self.lock.release_exclusive();
                    Ok(())
                },
                Err(e) => {
                    self.lock.release_exclusive();
                    Err(engine::engine_error(e))
                },
            }
        } else {
            Err(Error::RwLock)
        }
    }

    /// Serialize the session's state as an archive and write it whole to
    /// the capability.  Runs under exclusive access; a session already in
    /// use fails with the lock-contention error, which is raised for no
    /// other cause, and leaves the capability untouched.
    pub fn to_archive<S: Stream>(&mut self, dest: &mut S) -> (r: Result<(), Error>)
        requires
            old(self).wf(),
            old(dest).inv(),
            0 <= old(dest).pos(),
        ensures
            final(self).wf(),
            final(self).guard() == old(self).guard(),
            final(dest).inv(),
            0 <= final(dest).pos(),
            final(dest).exact() == old(dest).exact(),
            match r {
                Ok(_) => {
                    &&& old(self).guard() matches Access::Idle
                    &&& exists|b: Seq<u8>|
                        {
                            &&& final(dest).data() == stream_written(
                                old(dest).data(),
                                old(dest).pos(),
                                b,
                            )
                            &&& final(dest).pos() == old(dest).pos() + b.len()
                        }
                },
                Err(e) => (e.spec_kind() == ErrorKind::LockContention <==> !(old(self).guard()
                    matches Access::Idle)),
            },
            !(old(self).guard() matches Access::Idle) ==> *final(dest) == *old(dest),
    {
        if self.lock.try_exclusive() {
            let bytes = match engine::engine_builder_to_archive(&self.engine) {
                Ok(b) => b,
                Err(e) => {
                    self.lock.release_exclusive();
                    return Err(engine::engine_error(e));
                },
            };
            match write_all(dest, &bytes) {
                Ok(_) => {
                    self.lock.release_exclusive();
                    proof {
                        assert(final(dest).data() == stream_written(
                            old(dest).data(),
                            old(dest).pos(),
                            bytes@,
                        ));
                    }
                    Ok(())
                },
                Err(e) => {
                    self.lock.release_exclusive();
                    Err(e)
                },
            }
        } else {
            Err(Error::RwLock)
        }
    }

    /// Replace the session's state wholesale with one restored from the
    /// archive bytes the capability holds.  Runs under exclusive access; a
    /// session already in use fails with the lock-contention error, which
    /// is raised for no other cause.
    pub fn from_archive<S: Stream>(&mut self, source: &mut S) -> (r: Result<(), Error>)
        requires
            old(self).wf(),
            old(source).inv(),
            0 <= old(source).pos(),
        ensures
            final(self).wf(),
            final(self).guard() == old(self).guard(),
            final(source).inv(),
            0 <= final(source).pos(),
            final(source).exact() == old(source).exact(),
            final(source).data() == old(source).data(),
            match r {
                Ok(_) => old(self).guard() matches Access::Idle,
                Err(e) => (e.spec_kind() == ErrorKind::LockContention <==> !(old(self).guard()
                    matches Access::Idle)),
            },
            !(old(self).guard() matches Access::Idle) ==> *final(source) == *old(source),
    {
        if self.lock.try_exclusive() {
            let data = match read_to_end(source) {
                Ok(d) => d,
                Err(e) => {
                    self.lock.release_exclusive();
                    return Err(e);
                },
            };
            match engine::engine_builder_from_archive(&data) {
                Ok(b) => {
                    self.engine = b;
                    self.lock.release_exclusive();
                    Ok(())
                },
                Err(e) => {
                    self.lock.release_exclusive();
                    Err(engine::engine_error(e))
                },
            }
        } else {
            Err(Error::RwLock)
        }
    }

    /// Sign the source asset and write the signed result to the
    /// destination capability, returning the manifest bytes the engine
    /// produced.  Only a certificate-mode signer can drive the engine from
    /// here; a direct-mode signer needs the engine's own signer interface
    /// and is rejected as unsupported before anything is touched — a host
    /// that wants direct mode implements that interface against the engine
    /// itself, for instance over an archive of this session's state from
    /// `to_archive`.  Runs
    /// under exclusive access; a session already in use fails with the
    /// lock-contention error, which is raised for no other cause.
    pub fn sign<C: SignerCallback + Clone + Send + Sync + 'static, S: Stream, D: Stream>(
        &mut self,
        signer: &CallbackSigner<C>,
        format: &str,
        source: &mut S,
        dest: &mut D,
    ) -> (r: Result<Vec<u8>, Error>)
        requires
            old(self).wf(),
            old(source).inv(),
            0 <= old(source).pos(),
            old(dest).inv(),
            0 <= old(dest).pos(),
        ensures
            final(self).wf(),
            final(self).guard() == old(self).guard(),
            final(source).inv(),
            0 <= final(source).pos(),
            final(source).exact() == old(source).exact(),
            final(source).data() == old(source).data(),
            final(dest).inv(),
            0 <= final(dest).pos(),
            final(dest).exact() == old(dest).exact(),
            signer.is_direct() ==> (r matches Err(e) && e.spec_kind() == ErrorKind::NotSupported)
                && *final(source) == *old(source) && *final(dest) == *old(dest),
            match r {
                Ok(_) => {
                    &&& old(self).guard() matches Access::Idle
                    &&& exists|b: Seq<u8>|
                        {
                            &&& final(dest).data() == stream_written(
                                old(dest).data(),
                                old(dest).pos(),
                                b,
                            )
                            &&& final(dest).pos() == old(dest).pos() + b.len()
                        }
                },
                Err(e) => (e.spec_kind() == ErrorKind::LockContention ==> !(old(self).guard()
                    matches Access::Idle)),
            },
            (!signer.is_direct() && !(old(self).guard() matches Access::Idle)) ==> (r matches Err(
                e,
            ) && e matches Error::RwLock) && *final(source) == *old(source) && *final(dest)
                == *old(dest),
    {
        if signer.direct_cose_handling() {
            return Err(
                Error::NotSupported {
                    reason: "a direct-mode signer needs the engine's own signer interface".to_string(),
                },
            );
        }
        if self.lock.try_exclusive() {
            let data = match read_to_end(source) {
                Ok(d) => d,
                Err(e) => {
                    self.lock.release_exclusive();
                    return Err(e);
                },
            };
            match engine::engine_builder_sign(&mut self.engine, signer, format, &data) {
                Ok(signed) => {
                    let (manifest, out) = signed;
                    match write_all(dest, &out) {
                        Ok(_) => {
                            self.lock.release_exclusive();
                            proof {
                                assert(final(dest).data() == stream_written(
                                    old(dest).data(),
                                    old(dest).pos(),
                                    out@,
                                ));
                            }
                            Ok(manifest)
                        },
                        Err(e) => {
                            self.lock.release_exclusive();
                            Err(e)
                        },
                    }
                },
                Err(e) => {
                    self.lock.release_exclusive();
                    Err(engine::engine_error(e))
                },
            }
        } else {
            Err(Error::RwLock)
        }
    }

    /// Sign the asset at the source path and write the signed result to
    /// the destination path, returning the manifest bytes the engine
    /// produced.  The same rules as `sign` apply: certificate-mode signers
    /// only, exclusive access, fail-fast on contention.
    pub fn sign_file<C: SignerCallback + Clone + Send + Sync + 'static>(
        &mut self,
        signer: &CallbackSigner<C>,
        source: &str,
        dest: &str,
    ) -> (r: Result<Vec<u8>, Error>)
        requires
            old(self).wf(),
        ensures
            final(self).wf(),
            final(self).guard() == old(self).guard(),
            signer.is_direct() ==> (r matches Err(e) && e.spec_kind() == ErrorKind::NotSupported),
            match r {
                Ok(_) => old(self).guard() matches Access::Idle,
                Err(e) => (e.spec_kind() == ErrorKind::LockContention ==> !(old(self).guard()
                    matches Access::Idle)),
            },
            (!signer.is_direct() && !(old(self).guard() matches Access::Idle)) ==> (r matches Err(
                e,
            ) && e matches Error::RwLock),
    {
        if signer.direct_cose_handling() {
            return Err(
                Error::NotSupported {
                    reason: "a direct-mode signer needs the engine's own signer interface".to_string(),
                },
            );
        }
        if self.lock.try_exclusive() {
            match engine::engine_builder_sign_file(&mut self.engine, signer, source, dest) {
                Ok(manifest) => {
                    self.lock.release_exclusive();
                    Ok(manifest)
                },
                Err(e) => {
                    self.lock.release_exclusive();
                    Err(engine::engine_error(e))
                },
            }
        } else {
            Err(Error::RwLock)
        }
    }
}

} // verus!
