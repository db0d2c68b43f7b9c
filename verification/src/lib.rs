//! Digital-signature providers behind one contract: software Ed25519 and
//! ECDSA P-256 backends over a cryptographic primitive library, a
//! hardware-module session provider, and a permission-hardened on-disk
//! key store for PKCS#8 documents.

mod error;
mod keyring;

pub mod ed25519;
pub mod hsm;
pub mod keystore;
pub mod p256;
pub mod pkcs8doc;

pub use error::Error;
pub use keyring::{KeyRing, Provider};
