//! A client-side library that builds cryptographically signed, tagged data
//! transactions and interprets the outcome of submitting them to a remote
//! bundling endpoint.
//!
//! The core of the library is the canonical envelope format: a transaction's
//! public key, scheme identifier, ordered tag list and payload are serialized
//! into a single byte sequence, the envelope, which is what gets signed. The
//! final transaction bytes are the envelope followed by the signature, and the
//! transaction identifier is a content hash of those bytes.

pub mod bundlr;
pub mod codec;
pub mod error;
pub mod signer;
pub mod tags;
pub mod tx;

pub use tx::BundlrTx;
