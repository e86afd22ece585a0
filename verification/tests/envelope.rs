//! Tests of the canonical envelope encoding and its round trip.

use bundlr::codec::{decode_envelope, encode_envelope};
use bundlr::tags::Tag;

fn tag(name: &str, value: &str) -> Tag {
    Tag::new(name.as_bytes().to_vec(), value.as_bytes().to_vec())
}

#[test]
fn encoding_is_deterministic() {
    let pk = vec![7u8; 32];
    let tags1 = vec![tag("Content-Type", "text/plain"), tag("App", "demo")];
    let tags2 = vec![tag("Content-Type", "text/plain"), tag("App", "demo")];
    let payload = b"hello".to_vec();
    let a = encode_envelope(2, &pk, &tags1, &payload);
    let b = encode_envelope(2, &pk, &tags2, &payload);
    assert_eq!(a, b);
}

#[test]
fn tag_order_changes_the_bytes() {
    let pk = vec![7u8; 32];
    let tags1 = vec![tag("Content-Type", "text/plain"), tag("App", "demo")];
    let tags2 = vec![tag("App", "demo"), tag("Content-Type", "text/plain")];
    let payload = b"hello".to_vec();
    let a = encode_envelope(2, &pk, &tags1, &payload);
    let b = encode_envelope(2, &pk, &tags2, &payload);
    assert_ne!(a, b);
}

#[test]
fn empty_envelope_layout() {
    let pk: Vec<u8> = Vec::new();
    let tags: Vec<Tag> = Vec::new();
    let payload: Vec<u8> = Vec::new();
    let e = encode_envelope(2, &pk, &tags, &payload);
    // scheme id, empty key under its length prefix, zero tag count, no payload
    assert_eq!(e, vec![0, 2, 0, 0, 0, 0, 0, 0, 0, 0, 0, 0, 0, 0, 0, 0, 0, 0]);
}

#[test]
fn envelope_layout_with_key_and_tag() {
    let pk = vec![0xAA, 0xBB];
    let tags = vec![tag("k", "vv")];
    let payload = vec![0x01, 0x02, 0x03];
    let e = encode_envelope(1, &pk, &tags, &payload);
    let mut expected: Vec<u8> = Vec::new();
    expected.extend_from_slice(&[0, 1]); // scheme identifier
    expected.extend_from_slice(&[0, 0, 0, 0, 0, 0, 0, 2]); // key length
    expected.extend_from_slice(&[0xAA, 0xBB]); // key
    expected.extend_from_slice(&[0, 0, 0, 0, 0, 0, 0, 1]); // tag count
    expected.extend_from_slice(&[0, 0, 0, 0, 0, 0, 0, 1]); // name length
    expected.extend_from_slice(b"k");
    expected.extend_from_slice(&[0, 0, 0, 0, 0, 0, 0, 2]); // value length
    expected.extend_from_slice(b"vv");
    expected.extend_from_slice(&[0x01, 0x02, 0x03]); // payload
    assert_eq!(e, expected);
}

#[test]
fn round_trip_recovers_everything() {
    let pk = vec![9u8; 32];
    let tags = vec![tag("Content-Type", "text/plain"), tag("App", "demo"), tag("App", "demo")];
    let payload = b"payload bytes".to_vec();
    let e = encode_envelope(2, &pk, &tags, &payload);
    let (sig_type, dec_pk, dec_tags, dec_payload) =
        decode_envelope(e.as_slice()).expect("canonical envelope must decode");
    assert_eq!(sig_type, 2);
    assert_eq!(dec_pk, pk);
    assert_eq!(dec_payload, payload);
    assert_eq!(dec_tags.len(), tags.len());
    for i in 0..tags.len() {
        assert_eq!(dec_tags[i].name, tags[i].name);
        assert_eq!(dec_tags[i].value, tags[i].value);
    }
}

#[test]
fn round_trip_of_empty_payload_and_tags() {
    let pk = vec![1u8, 2, 3];
    let tags: Vec<Tag> = Vec::new();
    let payload: Vec<u8> = Vec::new();
    let e = encode_envelope(7, &pk, &tags, &payload);
    let (sig_type, dec_pk, dec_tags, dec_payload) =
        decode_envelope(e.as_slice()).expect("canonical envelope must decode");
    assert_eq!(sig_type, 7);
    assert_eq!(dec_pk, pk);
    assert!(dec_tags.is_empty());
    assert!(dec_payload.is_empty());
}

#[test]
fn truncated_bytes_do_not_decode() {
    let pk = vec![9u8; 4];
    let tags = vec![tag("a", "b")];
    let payload = b"xyz".to_vec();
    let e = encode_envelope(2, &pk, &tags, &payload);
    assert!(decode_envelope(&e[..1]).is_none());
    assert!(decode_envelope(&e[..9]).is_none());
    // cut inside the tag section, before its value arrives in full
    assert!(decode_envelope(&e[..e.len() - payload.len() - 1]).is_none());
    assert!(decode_envelope(&[]).is_none());
}
