//! The closed error taxonomy shared by every provider and by the key store.

use vstd::prelude::*;

verus! {

/// Every fallible operation of the library reports one of these kinds;
/// no operation panics or silently substitutes a default value.
#[derive(Clone, Copy, Debug, PartialEq, Eq, Structural)]
pub enum Error {
    /// Malformed or rejected key material at construction or import time.
    KeyInvalid,
    /// Signature verification failed: wrong key, tampered bytes or a
    /// malformed encoding, indistinguishable to the caller by design.
    SignatureInvalid,
    /// A resolved key does not match the expected algorithm or capability.
    InvalidKey,
    /// Transport, device or remote-session failure of a hardware module.
    ProviderError,
    /// A key-store path exists but is not a directory.
    NotADirectory,
    /// A key-store directory's mode bits differ from the required
    /// owner-only mode.
    Permissions,
    /// A filesystem operation of the key store failed.
    Io,
    /// A PKCS#8 or PEM document failed to decode.
    EncodingError,
}

} // verus!
