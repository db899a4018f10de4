pub mod alg;
pub mod callback_signer;
pub mod engine;
pub mod error;
pub mod lock;
pub mod session;
pub mod signer_info;
pub mod streams;

pub use alg::SigningAlg;
pub use callback_signer::{CallbackSigner, SignerCallback, DEFAULT_RESERVE_SIZE};
pub use error::{Error, ErrorKind, FaultFlags};
pub use lock::{Access, SessionLock};
pub use session::{Builder, Reader};
pub use signer_info::{SignerConfig, SignerInfo};
pub use streams::{SeekFrom, SeekMode, Stream, StreamAdapter, TestStream};
