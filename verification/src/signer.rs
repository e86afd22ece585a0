//! The signer capability: a pluggable cryptographic identity that can
//! produce a signature over a byte sequence and report its public key
//! and signature scheme identifier.

use vstd::prelude::*;

use crate::error::BundlrError;

verus! {

/// The scheme identifier an Ed25519 signer writes into the envelope header.
pub const ED25519_SIG_TYPE: u16 = 2;

/// A pluggable cryptographic identity. The transaction builder and the
/// client are generic over this capability and never inspect which scheme
/// is in use.
///
/// `sign` receives the exact canonical envelope bytes; a failure must
/// surface as `BundlrError::SigningError`, never be swallowed. Signing has
/// no side effects beyond the cryptographic computation.
pub trait Signer {
    /// The scheme identifier this signer reports.
    spec fn spec_sig_type(&self) -> u16;

    /// The public key bytes this signer reports.
    spec fn spec_public_key(&self) -> Seq<u8>;

    /// Whether this signer's `sign` can never fail. A scheme that signs
    /// in-memory key material directly promises this; one that can lose its
    /// key or its backend does not.
    spec fn spec_sign_infallible(&self) -> bool;

    /// Reports the signature scheme identifier.
    fn signature_type(&self) -> (t: u16)
        ensures
            t == self.spec_sig_type(),
    ;

    /// Reports the public key bytes.
    fn public_key(&self) -> (pk: Vec<u8>)
        ensures
            pk@ == self.spec_public_key(),
    ;

    /// Produces a signature over exactly the given message bytes. An
    /// infallible signer always succeeds; any failure surfaces as the
    /// signing error and nothing else.
    fn sign(&self, message: &Vec<u8>) -> (r: Result<Vec<u8>, BundlrError>)
        ensures
            r matches Err(e) ==> e == BundlrError::SigningError,
            self.spec_sign_infallible() ==> r is Ok,
    ;
}

/// The Ed25519 public key derived from a 32-byte secret key. RFC 8032 key
/// derivation is a function of the secret key alone.
pub uninterp spec fn spec_ed25519_public_key(secret: Seq<u8>) -> Seq<u8>;

/// The Ed25519 signature over a message under a 32-byte secret key. RFC 8032
/// signing is deterministic: a function of the secret key and message alone.
pub uninterp spec fn spec_ed25519_signature(secret: Seq<u8>, message: Seq<u8>) -> Seq<u8>;

/// Relies on ed25519_dalek::SigningKey::from_bytes and
/// VerifyingKey::to_bytes: the 32-byte public key derived from the secret
/// key, a deterministic function of the secret key alone.
#[verifier::external_body]
fn ed25519_public_key(secret: &[u8; 32]) -> (r: Vec<u8>)
    ensures
        r@ == spec_ed25519_public_key(secret@),
        r@.len() == 32,
{
    let key = ed25519_dalek::SigningKey::from_bytes(secret);
    key.verifying_key().to_bytes().to_vec()
}

/// Relies on ed25519_dalek's `Signer::sign` for `SigningKey`: a 64-byte
/// RFC 8032 Ed25519 signature, deterministic in the secret key and message.
#[verifier::external_body]
fn ed25519_sign(secret: &[u8; 32], message: &Vec<u8>) -> (r: Vec<u8>)
    ensures
        r@ == spec_ed25519_signature(secret@, message@),
        r@.len() == 64,
{
    let key = ed25519_dalek::SigningKey::from_bytes(secret);
    let signature = ed25519_dalek::Signer::sign(&key, message.as_slice());
    signature.to_bytes().to_vec()
}

/// An Ed25519 signer over a fixed 32-byte secret key.
pub struct Ed25519Signer {
    secret: [u8; 32],
}

impl Ed25519Signer {
    /// The bytes of the secret key.
    pub closed spec fn spec_secret(&self) -> Seq<u8> {
        self.secret@
    }

    pub fn new(secret: [u8; 32]) -> (s: Ed25519Signer)
        ensures
            s.spec_secret() == secret@,
            s.spec_sig_type() == ED25519_SIG_TYPE,
            s.spec_public_key() == spec_ed25519_public_key(secret@),
            s.spec_sign_infallible(),
    {
        Ed25519Signer { secret }
    }
}

impl Signer for Ed25519Signer {
    closed spec fn spec_sig_type(&self) -> u16 {
        ED25519_SIG_TYPE
    }

    closed spec fn spec_public_key(&self) -> Seq<u8> {
        spec_ed25519_public_key(self.secret@)
    }

    /// Ed25519 signing over in-memory key material cannot fail.
    closed spec fn spec_sign_infallible(&self) -> bool {
        true
    }

    fn signature_type(&self) -> (t: u16) {
        ED25519_SIG_TYPE
    }

    fn public_key(&self) -> (pk: Vec<u8>) {
        ed25519_public_key(&self.secret)
    }

    /// Ed25519 signing over in-memory key material cannot fail, and the
    /// signature is deterministic in the secret key and the message.
    fn sign(&self, message: &Vec<u8>) -> (r: Result<Vec<u8>, BundlrError>)
        ensures
            r is Ok,
            r matches Ok(s) ==> s@ == spec_ed25519_signature(self.spec_secret(), message@),
    {
        Ok(ed25519_sign(&self.secret, message))
    }
}

} // verus!
