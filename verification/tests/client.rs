//! Tests of the client: outcome interpretation and request construction.

use bundlr::bundlr::{interpret_outcome, Bundlr, TransportOutcome, TxResponse};
use bundlr::error::{BundlrError, ResponseFailure};
use bundlr::signer::Ed25519Signer;
use bundlr::tags::Tag;

fn seed() -> [u8; 32] {
    let mut s = [0u8; 32];
    for i in 0..32 {
        s[i] = (31 - i) as u8;
    }
    s
}

#[test]
fn transport_failure_maps_to_unknown() {
    let r = interpret_outcome(TransportOutcome::Failure);
    assert_eq!(r.err().unwrap(), BundlrError::Unknown);
}

#[test]
fn non_success_status_maps_to_status_error() {
    let r = interpret_outcome(TransportOutcome::Response {
        status: 500,
        body: br#"{"id":"ignored"}"#.to_vec(),
    });
    assert_eq!(r.err().unwrap(), BundlrError::ResponseError(ResponseFailure::Status(500)));
    let r = interpret_outcome(TransportOutcome::Response { status: 404, body: Vec::new() });
    assert_eq!(r.err().unwrap(), BundlrError::ResponseError(ResponseFailure::Status(404)));
    let r = interpret_outcome(TransportOutcome::Response { status: 199, body: Vec::new() });
    assert_eq!(r.err().unwrap(), BundlrError::ResponseError(ResponseFailure::Status(199)));
    let r = interpret_outcome(TransportOutcome::Response { status: 300, body: Vec::new() });
    assert_eq!(r.err().unwrap(), BundlrError::ResponseError(ResponseFailure::Status(300)));
}

#[test]
fn invalid_json_body_maps_to_parse_error() {
    let r = interpret_outcome(TransportOutcome::Response {
        status: 200,
        body: b"not json at all".to_vec(),
    });
    assert_eq!(r.err().unwrap(), BundlrError::ResponseError(ResponseFailure::InvalidJson));
}

#[test]
fn valid_json_with_id_maps_to_ok() {
    let r = interpret_outcome(TransportOutcome::Response {
        status: 200,
        body: br#"{"id":"abc123","other":"ignored"}"#.to_vec(),
    });
    let resp = r.expect("a success body with an id must be accepted");
    assert_eq!(resp.id().as_str(), "abc123");
}

#[test]
fn whole_success_window_is_accepted() {
    for status in [200u16, 201, 299] {
        let r = interpret_outcome(TransportOutcome::Response {
            status,
            body: br#"{"id":"x"}"#.to_vec(),
        });
        assert_eq!(r.expect("a success status must be accepted").id().as_str(), "x");
    }
}

#[test]
fn valid_json_without_id_is_rejected() {
    let r = interpret_outcome(TransportOutcome::Response {
        status: 200,
        body: br#"{"txid":"abc123"}"#.to_vec(),
    });
    assert_eq!(r.err().unwrap(), BundlrError::ResponseError(ResponseFailure::MissingId));
    let r = interpret_outcome(TransportOutcome::Response {
        status: 200,
        body: br#"{"id":7}"#.to_vec(),
    });
    assert_eq!(r.err().unwrap(), BundlrError::ResponseError(ResponseFailure::MissingId));
}

#[test]
fn tx_response_reports_its_id() {
    let resp = TxResponse::new("someid".to_string());
    assert_eq!(resp.id().as_str(), "someid");
}

#[test]
fn request_path_is_url_then_tx_then_chain() {
    let client = Bundlr::new(
        "https://node1.example".to_string(),
        "arweave".to_string(),
        "arweave".to_string(),
        Ed25519Signer::new(seed()),
    );
    let path = client.request_path();
    assert_eq!(path.as_slice(), b"https://node1.example/tx/arweave");
    assert_eq!(client.url().as_str(), "https://node1.example");
    assert_eq!(client.chain().as_str(), "arweave");
    assert_eq!(client.currency().as_str(), "arweave");
}

#[test]
fn client_builds_a_signed_transaction() {
    let client = Bundlr::new(
        "https://node1.example".to_string(),
        "arweave".to_string(),
        "arweave".to_string(),
        Ed25519Signer::new(seed()),
    );
    let tx = client
        .create_transaction_with_tags(
            b"hello".to_vec(),
            vec![Tag::new(b"Content-Type".to_vec(), b"text/plain".to_vec())],
        )
        .expect("signing cannot fail");
    assert_eq!(tx.data().as_slice(), b"hello");
    assert_eq!(tx.public_key().len(), 32);
    let signed = tx.into_inner();
    assert!(signed.len() > 64);
}
