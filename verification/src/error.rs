//! Error taxonomy of the session layer.
//!
//! Every failure is reported synchronously as a typed value; no operation
//! panics, retries, or leaves a session in a half-mutated state. Validation
//! errors are raised before any call into the encryption engine, so a
//! rejected call has no side effects.

use vstd::prelude::*;

verus! {

/// A failure reported by the session layer.
#[derive(Clone, Copy, Debug, PartialEq, Eq, Structural)]
pub enum Error {
    /// A cipher key was not exactly 16 bytes long.
    InvalidKeyLength,
    /// A plaintext handed to an encrypt operation was not exactly 8 bytes
    /// long (the engine's block size for ordering keys).
    InvalidPlaintextLength,
    /// A raw buffer handed to `encode_buffer` was not exactly 8 bytes long.
    InvalidBufferLength,
    /// The session was already under a mutable operation when another one
    /// was issued; the later operation fails immediately without blocking
    /// and without touching engine state.
    SessionBusy,
    /// The engine could not establish an ordering between two ciphertexts
    /// (malformed or mismatched buffers).
    ComparisonFailed,
    /// Opaque failure passed through from the encryption engine.
    EngineError,
}

} // verus!
