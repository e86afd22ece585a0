//! The transaction: built from a payload and an ordered tag list, signed
//! synchronously inside the builder call, and immutable afterwards.

use vstd::prelude::*;

use crate::codec;
use crate::codec::{spec_envelope, spec_tags_model};
use crate::error::BundlrError;
use crate::signer::Signer;
use crate::tags::Tag;

verus! {

/// The SHA-256 digest of a byte sequence: 32 bytes that depend on the input
/// bytes alone.
pub uninterp spec fn spec_sha256(b: Seq<u8>) -> Seq<u8>;

/// Relies on sha2::Sha256 through `Digest::digest`: the digest is a function
/// of the input bytes alone and is 32 bytes long.
#[verifier::external_body]
fn sha256(data: &Vec<u8>) -> (r: Vec<u8>)
    ensures
        r@ == spec_sha256(data@),
        r@.len() == 32,
{
    <sha2::Sha256 as sha2::Digest>::digest(data.as_slice()).to_vec()
}

/// A fully signed, self-contained transaction.
///
/// The signature was computed once, over an envelope whose layout (public
/// key, tags, payload, in a fixed order) was fully determined before signing
/// began. The type exposes no mutation and no re-signing operation: every
/// accessor takes `&self`, and submission consumes the whole value.
pub struct BundlrTx {
    signature_type: u16,
    public_key: Vec<u8>,
    tags: Vec<Tag>,
    payload: Vec<u8>,
    signature: Vec<u8>,
    id: Vec<u8>,
}

impl BundlrTx {
    /// The canonical envelope bytes of this transaction: exactly what was
    /// signed.
    pub closed spec fn spec_envelope_bytes(&self) -> Seq<u8> {
        spec_envelope(
            self.signature_type,
            self.public_key@,
            spec_tags_model(self.tags@),
            self.payload@,
        )
    }

    /// The final transaction bytes: the envelope followed by the signature.
    pub closed spec fn spec_signed_bytes(&self) -> Seq<u8> {
        self.spec_envelope_bytes() + self.signature@
    }

    pub closed spec fn spec_signature_type(&self) -> u16 {
        self.signature_type
    }

    pub closed spec fn spec_public_key(&self) -> Seq<u8> {
        self.public_key@
    }

    pub closed spec fn spec_tags(&self) -> Seq<(Seq<u8>, Seq<u8>)> {
        spec_tags_model(self.tags@)
    }

    pub closed spec fn spec_payload(&self) -> Seq<u8> {
        self.payload@
    }

    pub closed spec fn spec_signature(&self) -> Seq<u8> {
        self.signature@
    }

    pub closed spec fn spec_id(&self) -> Seq<u8> {
        self.id@
    }

    /// Whether the identifier is the content hash of the signed bytes.
    /// The builder establishes this, and nothing can break it afterwards.
    pub open spec fn spec_well_formed(&self) -> bool {
        self.spec_id() == spec_sha256(self.spec_signed_bytes())
    }

    /// Assembles the finished transaction from its parts: the envelope
    /// fields and the signature that was produced over the envelope bytes.
    /// Assembly never fails, whatever the signature bytes are, and derives
    /// the identifier as the content hash of envelope plus signature.
    pub fn assemble(
        signature_type: u16,
        public_key: Vec<u8>,
        tags: Vec<Tag>,
        payload: Vec<u8>,
        signature: Vec<u8>,
    ) -> (tx: BundlrTx)
        ensures
            tx.spec_signature_type() == signature_type,
            tx.spec_public_key() == public_key@,
            tx.spec_tags() == spec_tags_model(tags@),
            tx.spec_payload() == payload@,
            tx.spec_signature() == signature@,
            tx.spec_envelope_bytes() == spec_envelope(
                signature_type,
                public_key@,
                spec_tags_model(tags@),
                payload@,
            ),
            tx.spec_signed_bytes() == tx.spec_envelope_bytes() + signature@,
            tx.spec_well_formed(),
    {
        let mut signed = codec::encode_envelope(signature_type, &public_key, &tags, &payload);
        codec::append_bytes(&mut signed, signature.as_slice());
        let id = sha256(&signed);
        BundlrTx { signature_type, public_key, tags, payload, signature, id }
    }

    /// Builds a transaction from the payload and the ordered tag list, signs
    /// its canonical envelope with the given signer, and derives its
    /// identifier as the content hash of the final bytes.
    ///
    /// Arbitrary payload bytes and arbitrary tags are accepted; an empty
    /// payload and an empty tag list are valid. The only failure is the
    /// signer's own, surfaced as `BundlrError::SigningError`; with a signer
    /// that cannot fail, building always succeeds.
    pub fn create_with_tags<S: Signer>(data: Vec<u8>, tags: Vec<Tag>, signer: &S) -> (r: Result<
        BundlrTx,
        BundlrError,
    >)
        ensures
            signer.spec_sign_infallible() ==> r is Ok,
            r matches Ok(tx) ==> {
                &&& tx.spec_signature_type() == signer.spec_sig_type()
                &&& tx.spec_public_key() == signer.spec_public_key()
                &&& tx.spec_tags() == spec_tags_model(tags@)
                &&& tx.spec_payload() == data@
                &&& tx.spec_envelope_bytes() == spec_envelope(
                    signer.spec_sig_type(),
                    signer.spec_public_key(),
                    spec_tags_model(tags@),
                    data@,
                )
                &&& tx.spec_signed_bytes() == tx.spec_envelope_bytes() + tx.spec_signature()
                &&& tx.spec_well_formed()
            },
            r matches Err(e) ==> e == BundlrError::SigningError
                && !signer.spec_sign_infallible(),
    {
        let signature_type = signer.signature_type();
        let public_key = signer.public_key();
        let envelope = codec::encode_envelope(signature_type, &public_key, &tags, &data);
        let signature = match signer.sign(&envelope) {
            Ok(s) => s,
            Err(e) => {
                return Err(e);
            },
        };
        Ok(Self::assemble(signature_type, public_key, tags, data, signature))
    }

    /// Consumes the transaction and hands back its final signed bytes,
    /// envelope followed by signature: what gets submitted. The value is
    /// gone afterwards, so a submitted transaction cannot be reused.
    pub fn into_inner(self) -> (r: Vec<u8>)
        ensures
            r@ == self.spec_signed_bytes(),
    {
        let mut out = codec::encode_envelope(
            self.signature_type,
            &self.public_key,
            &self.tags,
            &self.payload,
        );
        codec::append_bytes(&mut out, self.signature.as_slice());
        out
    }

    /// Re-encodes the canonical envelope: the bytes the signature was
    /// computed over.
    pub fn envelope_bytes(&self) -> (r: Vec<u8>)
        ensures
            r@ == self.spec_envelope_bytes(),
    {
        codec::encode_envelope(self.signature_type, &self.public_key, &self.tags, &self.payload)
    }

    pub fn signature_type(&self) -> (r: u16)
        ensures
            r == self.spec_signature_type(),
    {
        self.signature_type
    }

    pub fn public_key(&self) -> (r: &Vec<u8>)
        ensures
            r@ == self.spec_public_key(),
    {
        &self.public_key
    }

    pub fn tags(&self) -> (r: &Vec<Tag>)
        ensures
            spec_tags_model(r@) == self.spec_tags(),
    {
        &self.tags
    }

    pub fn data(&self) -> (r: &Vec<u8>)
        ensures
            r@ == self.spec_payload(),
    {
        &self.payload
    }

    pub fn signature(&self) -> (r: &Vec<u8>)
        ensures
            r@ == self.spec_signature(),
    {
        &self.signature
    }

    pub fn id(&self) -> (r: &Vec<u8>)
        ensures
            r@ == self.spec_id(),
    {
        &self.id
    }
}

} // verus!
