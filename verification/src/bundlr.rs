//! The client: owns the endpoint, chain and currency identifiers and the
//! signer capability, builds transactions, and maps the outcome of one
//! submission exchange to a typed result.
//!
//! The transport that actually carries bytes over the network is outside
//! this library: a caller performs the HTTP exchange and hands back a
//! `TransportOutcome`, which `interpret_outcome` turns into exactly one of
//! the documented results.

use vstd::prelude::*;

use crate::error::{BundlrError, ResponseFailure};
use crate::signer::Signer;
use crate::tags::Tag;
use crate::tx::BundlrTx;
use crate::codec;
use crate::codec::{spec_envelope, spec_tags_model};

verus! {

/// Whether a byte sequence is well-formed JSON under serde_json, a property
/// of the bytes alone.
pub uninterp spec fn spec_json_ok(b: Seq<u8>) -> bool;

/// The text under the `id` key of a JSON body: the string, if the bytes are
/// well-formed JSON whose `id` field holds one, and nothing otherwise. A
/// function of the bytes alone.
pub uninterp spec fn spec_json_id(b: Seq<u8>) -> Option<Seq<char>>;

/// Relies on serde_json::from_slice::<Value>: it returns `Ok` exactly when
/// the bytes are well-formed JSON, which depends on the bytes alone.
#[verifier::external_body]
fn json_body_ok(body: &Vec<u8>) -> (r: bool)
    ensures
        r == spec_json_ok(body@),
{
    serde_json::from_slice::<serde_json::Value>(body.as_slice()).is_ok()
}

/// Relies on serde_json::from_slice::<Value>, Value::get and Value::as_str:
/// the string under the body's `id` key, present exactly when the bytes are
/// well-formed JSON whose `id` field is a string; all three calls depend on
/// the bytes alone.
#[verifier::external_body]
fn json_body_id(body: &Vec<u8>) -> (r: Option<String>)
    ensures
        r is Some <==> spec_json_id(body@) is Some,
        r matches Some(s) ==> spec_json_id(body@) == Some(s@),
{
    match serde_json::from_slice::<serde_json::Value>(body.as_slice()) {
        Ok(v) => match v.get("id") {
            Some(field) => match field.as_str() {
                Some(s) => Some(s.to_owned()),
                None => None,
            },
            None => None,
        },
        Err(_) => None,
    }
}

/// The accepted response of the bundling endpoint: the identifier it
/// assigned to the transaction. Any other field of the response body is
/// ignored.
pub struct TxResponse {
    id: String,
}

impl TxResponse {
    pub closed spec fn spec_id(&self) -> Seq<char> {
        self.id@
    }

    pub fn new(id: String) -> (r: TxResponse)
        ensures
            r.spec_id() == id@,
    {
        TxResponse { id }
    }

    pub fn id(&self) -> (r: &String)
        ensures
            r@ == self.spec_id(),
    {
        &self.id
    }
}

/// What one HTTP exchange with the bundling endpoint came to.
pub enum TransportOutcome {
    /// The request never produced a response: connection refused, timeout,
    /// name resolution failure, and the like.
    Failure,
    /// A response arrived, with this status code and body.
    Response { status: u16, body: Vec<u8> },
}

/// Whether an HTTP status code indicates success.
pub open spec fn spec_status_success(status: u16) -> bool {
    200 <= status < 300
}

/// Maps the outcome of one submission exchange to the typed result, with an
/// explicit decision tree and exactly one outcome branch:
/// no response at all is `Unknown`; a non-success status is `ResponseError`
/// carrying that status; a success status whose body is not JSON is
/// `ResponseError` for the parse failure; a success status whose JSON body
/// holds a string `id` is `Ok` with exactly that identifier, and one
/// without it is `ResponseError` for the missing field. Nothing is retried
/// here.
pub fn interpret_outcome(outcome: TransportOutcome) -> (r: Result<TxResponse, BundlrError>)
    ensures
        outcome is Failure ==> r == Err::<TxResponse, BundlrError>(BundlrError::Unknown),
        outcome matches TransportOutcome::Response { status, body } ==> {
            &&& !spec_status_success(status) ==> r == Err::<TxResponse, BundlrError>(
                BundlrError::ResponseError(ResponseFailure::Status(status)),
            )
            &&& spec_status_success(status) && !spec_json_ok(body@) ==> r == Err::<
                TxResponse,
                BundlrError,
            >(BundlrError::ResponseError(ResponseFailure::InvalidJson))
            &&& spec_status_success(status) && spec_json_ok(body@) && spec_json_id(body@) is None
                ==> r == Err::<TxResponse, BundlrError>(
                BundlrError::ResponseError(ResponseFailure::MissingId),
            )
            &&& spec_status_success(status) && spec_json_ok(body@) ==> (spec_json_id(body@)
                matches Some(s) ==> (r matches Ok(resp) && resp.spec_id() == s))
        },
        r is Ok ==> (outcome matches TransportOutcome::Response { status, body }
            && spec_status_success(status) && spec_json_ok(body@) && spec_json_id(body@) is Some),
{
    match outcome {
        TransportOutcome::Failure => Err(BundlrError::Unknown),
        TransportOutcome::Response { status, body } => {
            if status < 200 || status >= 300 {
                return Err(BundlrError::ResponseError(ResponseFailure::Status(status)));
            }
            if !json_body_ok(&body) {
                return Err(BundlrError::ResponseError(ResponseFailure::InvalidJson));
            }
            match json_body_id(&body) {
                Some(id) => Ok(TxResponse { id }),
                None => Err(BundlrError::ResponseError(ResponseFailure::MissingId)),
            }
        },
    }
}

/// The client configuration: endpoint URL, chain and currency identifiers
/// and the signer capability. Immutable after construction and safe to
/// share across any number of concurrent submissions, since nothing here is
/// ever mutated.
pub struct Bundlr<T> {
    url: String,
    chain: String,
    currency: String,
    signer: T,
}

impl<T: Signer> Bundlr<T> {
    pub closed spec fn spec_url(&self) -> Seq<char> {
        self.url@
    }

    pub closed spec fn spec_chain(&self) -> Seq<char> {
        self.chain@
    }

    pub closed spec fn spec_currency(&self) -> Seq<char> {
        self.currency@
    }

    pub closed spec fn spec_signer(&self) -> T {
        self.signer
    }

    pub fn new(url: String, chain: String, currency: String, signer: T) -> (b: Bundlr<T>)
        ensures
            b.spec_url() == url@,
            b.spec_chain() == chain@,
            b.spec_currency() == currency@,
            b.spec_signer() == signer,
    {
        Bundlr { url, chain, currency, signer }
    }

    pub fn url(&self) -> (r: &String)
        ensures
            r@ == self.spec_url(),
    {
        &self.url
    }

    pub fn chain(&self) -> (r: &String)
        ensures
            r@ == self.spec_chain(),
    {
        &self.chain
    }

    pub fn currency(&self) -> (r: &String)
        ensures
            r@ == self.spec_currency(),
    {
        &self.currency
    }

    /// Builds and signs a transaction with this client's signer. With a
    /// signer that cannot fail, building always succeeds; otherwise the
    /// signer's failure propagates unchanged as the signing error.
    pub fn create_transaction_with_tags(&self, data: Vec<u8>, tags: Vec<Tag>) -> (r: Result<
        BundlrTx,
        BundlrError,
    >)
        ensures
            self.spec_signer().spec_sign_infallible() ==> r is Ok,
            r matches Ok(tx) ==> {
                &&& tx.spec_signature_type() == self.spec_signer().spec_sig_type()
                &&& tx.spec_public_key() == self.spec_signer().spec_public_key()
                &&& tx.spec_tags() == spec_tags_model(tags@)
                &&& tx.spec_payload() == data@
                &&& tx.spec_envelope_bytes() == spec_envelope(
                    self.spec_signer().spec_sig_type(),
                    self.spec_signer().spec_public_key(),
                    spec_tags_model(tags@),
                    data@,
                )
                &&& tx.spec_signed_bytes() == tx.spec_envelope_bytes() + tx.spec_signature()
                &&& tx.spec_well_formed()
            },
            r matches Err(e) ==> e == BundlrError::SigningError
                && !self.spec_signer().spec_sign_infallible(),
    {
        BundlrTx::create_with_tags(data, tags, &self.signer)
    }

    /// The bytes of the submission request path: the endpoint URL, then
    /// "/tx/", then the chain identifier. The body of that request is the
    /// transaction's signed bytes, sent as an opaque binary payload.
    pub fn request_path(&self) -> (r: Vec<u8>)
        ensures
            r@ == vstd::utf8::encode_utf8(self.spec_url()) + seq![47u8, 116u8, 120u8, 47u8]
                + vstd::utf8::encode_utf8(self.spec_chain()),
    {
        let mut out: Vec<u8> = Vec::new();
        codec::append_bytes(&mut out, self.url.as_str().as_bytes());
        out.push(47);
        out.push(116);
        out.push(120);
        out.push(47);
        codec::append_bytes(&mut out, self.chain.as_str().as_bytes());
        assert(out@ =~= vstd::utf8::encode_utf8(self.url@) + seq![47u8, 116u8, 120u8, 47u8]
            + vstd::utf8::encode_utf8(self.chain@));
        out
    }
}

} // verus!
