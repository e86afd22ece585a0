//! The canonical envelope format.
//!
//! An envelope is the byte sequence that gets signed. It is, in order:
//! two big-endian bytes for the signature scheme identifier, the
//! length-prefixed public key, eight big-endian bytes for the tag count,
//! each tag as a length-prefixed name followed by a length-prefixed value,
//! and finally the raw payload bytes. Every length prefix is eight
//! big-endian bytes, so decoding is unambiguous and distinct tag orderings
//! never produce identical bytes.

use vstd::prelude::*;

use crate::tags::Tag;

verus! {

/// The byte model of a tag list: each tag as its (name bytes, value bytes).
pub open spec fn spec_tags_model(ts: Seq<Tag>) -> Seq<(Seq<u8>, Seq<u8>)> {
    ts.map_values(|t: Tag| (t.name@, t.value@))
}

/// The two big-endian bytes of a scheme identifier.
pub open spec fn spec_u16_be(n: u16) -> Seq<u8> {
    seq![(n >> 8) as u8, n as u8]
}

/// The eight big-endian bytes of a length or count.
pub open spec fn spec_u64_be(n: u64) -> Seq<u8> {
    seq![
        (n >> 56) as u8,
        (n >> 48) as u8,
        (n >> 40) as u8,
        (n >> 32) as u8,
        (n >> 24) as u8,
        (n >> 16) as u8,
        (n >> 8) as u8,
        n as u8,
    ]
}

/// The scheme identifier read back from its two big-endian bytes.
pub open spec fn spec_u16_of(b: Seq<u8>) -> u16
    recommends
        b.len() == 2,
{
    (((b[0] as u16) << 8) | (b[1] as u16)) as u16
}

/// The length or count read back from its eight big-endian bytes.
pub open spec fn spec_u64_of(b: Seq<u8>) -> u64
    recommends
        b.len() == 8,
{
    (((b[0] as u64) << 56) | ((b[1] as u64) << 48) | ((b[2] as u64) << 40)
        | ((b[3] as u64) << 32) | ((b[4] as u64) << 24) | ((b[5] as u64) << 16)
        | ((b[6] as u64) << 8) | (b[7] as u64)) as u64
}

/// A length-prefixed byte string: eight big-endian length bytes, then the
/// bytes themselves.
pub open spec fn spec_len_prefixed(x: Seq<u8>) -> Seq<u8> {
    spec_u64_be(x.len() as u64) + x
}

/// A tag's canonical bytes: length-prefixed name, then length-prefixed value.
pub open spec fn spec_encode_tag(t: (Seq<u8>, Seq<u8>)) -> Seq<u8> {
    spec_len_prefixed(t.0) + spec_len_prefixed(t.1)
}

/// The canonical bytes of a tag list, in input order, without the count.
pub open spec fn spec_encode_tags(ts: Seq<(Seq<u8>, Seq<u8>)>) -> Seq<u8>
    decreases ts.len(),
{
    if ts.len() == 0 {
        Seq::empty()
    } else {
        spec_encode_tag(ts[0]) + spec_encode_tags(ts.drop_first())
    }
}

/// The canonical envelope of a transaction.
pub open spec fn spec_envelope(
    sig_type: u16,
    public_key: Seq<u8>,
    ts: Seq<(Seq<u8>, Seq<u8>)>,
    payload: Seq<u8>,
) -> Seq<u8> {
    spec_u16_be(sig_type) + spec_len_prefixed(public_key) + spec_u64_be(ts.len() as u64)
        + spec_encode_tags(ts) + payload
}

/// Whether a tag's name and value each fit under an eight-byte length prefix.
pub open spec fn spec_tag_fits(t: (Seq<u8>, Seq<u8>)) -> bool {
    t.0.len() <= u64::MAX && t.1.len() <= u64::MAX
}

/// Whether an envelope's variable-length parts all fit under their prefixes.
/// Every envelope built from in-memory vectors satisfies this.
pub open spec fn spec_envelope_fits(public_key: Seq<u8>, ts: Seq<(Seq<u8>, Seq<u8>)>) -> bool {
    &&& public_key.len() <= u64::MAX
    &&& ts.len() <= u64::MAX
    &&& forall|i: int| 0 <= i < ts.len() ==> spec_tag_fits(#[trigger] ts[i])
}

proof fn lemma_u16_roundtrip(n: u16)
    ensures
        spec_u16_of(spec_u16_be(n)) == n,
{
    let b0 = (n >> 8) as u8;
    let b1 = n as u8;
    assert(spec_u16_be(n)[0] == b0);
    assert(spec_u16_be(n)[1] == b1);
    assert(((((n >> 8) as u8 as u16) << 8) | (n as u8 as u16)) as u16 == n) by (bit_vector);
}

proof fn lemma_u64_roundtrip(n: u64)
    ensures
        spec_u64_of(spec_u64_be(n)) == n,
{
    assert(spec_u64_be(n)[0] == (n >> 56) as u8);
    assert(spec_u64_be(n)[1] == (n >> 48) as u8);
    assert(spec_u64_be(n)[2] == (n >> 40) as u8);
    assert(spec_u64_be(n)[3] == (n >> 32) as u8);
    assert(spec_u64_be(n)[4] == (n >> 24) as u8);
    assert(spec_u64_be(n)[5] == (n >> 16) as u8);
    assert(spec_u64_be(n)[6] == (n >> 8) as u8);
    assert(spec_u64_be(n)[7] == n as u8);
    assert(((((n >> 56) as u8 as u64) << 56) | (((n >> 48) as u8 as u64) << 48)
        | (((n >> 40) as u8 as u64) << 40) | (((n >> 32) as u8 as u64) << 32)
        | (((n >> 24) as u8 as u64) << 24) | (((n >> 16) as u8 as u64) << 16)
        | (((n >> 8) as u8 as u64) << 8) | (n as u8 as u64)) as u64 == n) by (bit_vector);
}

/// Appending one more tag extends the tag section by that tag's bytes.
proof fn lemma_encode_tags_push(ts: Seq<(Seq<u8>, Seq<u8>)>, t: (Seq<u8>, Seq<u8>))
    ensures
        spec_encode_tags(ts.push(t)) == spec_encode_tags(ts) + spec_encode_tag(t),
    decreases ts.len(),
{
    if ts.len() == 0 {
        assert(ts.push(t)[0] == t);
        assert(ts.push(t).drop_first() =~= Seq::<(Seq<u8>, Seq<u8>)>::empty());
        assert(spec_encode_tags(ts.push(t)) == spec_encode_tag(t)
            + spec_encode_tags(Seq::<(Seq<u8>, Seq<u8>)>::empty()));
        assert(spec_encode_tag(t) + Seq::<u8>::empty() =~= spec_encode_tag(t));
        assert(Seq::<u8>::empty() + spec_encode_tag(t) =~= spec_encode_tag(t));
        assert(spec_encode_tags(ts) == Seq::<u8>::empty());
    } else {
        lemma_encode_tags_push(ts.drop_first(), t);
        assert(ts.push(t)[0] == ts[0]);
        assert(ts.push(t).drop_first() =~= ts.drop_first().push(t));
        assert(spec_encode_tags(ts.push(t)) == spec_encode_tag(ts[0])
            + spec_encode_tags(ts.drop_first().push(t)));
        assert(spec_encode_tags(ts.push(t)) == spec_encode_tag(ts[0])
            + (spec_encode_tags(ts.drop_first()) + spec_encode_tag(t)));
        assert((spec_encode_tag(ts[0]) + spec_encode_tags(ts.drop_first())) + spec_encode_tag(t)
            =~= spec_encode_tag(ts[0]) + (spec_encode_tags(ts.drop_first()) + spec_encode_tag(t)));
        assert(spec_encode_tags(ts) == spec_encode_tag(ts[0]) + spec_encode_tags(ts.drop_first()));
    }
}

fn push_u16_be(out: &mut Vec<u8>, n: u16)
    ensures
        final(out)@ == old(out)@ + spec_u16_be(n),
{
    out.push((n >> 8) as u8);
    out.push(n as u8);
    assert(out@ =~= old(out)@ + spec_u16_be(n));
}

fn push_u64_be(out: &mut Vec<u8>, n: u64)
    ensures
        final(out)@ == old(out)@ + spec_u64_be(n),
{
    out.push((n >> 56) as u8);
    out.push((n >> 48) as u8);
    out.push((n >> 40) as u8);
    out.push((n >> 32) as u8);
    out.push((n >> 24) as u8);
    out.push((n >> 16) as u8);
    out.push((n >> 8) as u8);
    out.push(n as u8);
    assert(out@ =~= old(out)@ + spec_u64_be(n));
}

pub(crate) fn append_bytes(out: &mut Vec<u8>, src: &[u8])
    ensures
        final(out)@ == old(out)@ + src@,
{
    let mut i: usize = 0;
    while i < src.len()
        invariant
            i <= src@.len(),
            out@ == old(out)@ + src@.take(i as int),
        decreases src@.len() - i,
    {
        out.push(src[i]);
        i = i + 1;
        assert(out@ =~= old(out)@ + src@.take(i as int));
    }
    assert(src@.take(src@.len() as int) =~= src@);
}

fn push_len_prefixed(out: &mut Vec<u8>, x: &[u8])
    ensures
        final(out)@ == old(out)@ + spec_len_prefixed(x@),
{
    push_u64_be(out, x.len() as u64);
    append_bytes(out, x);
    assert(out@ =~= old(out)@ + spec_len_prefixed(x@));
}

/// Builds the canonical envelope of a transaction: the exact byte sequence
/// that gets signed. The encoding is a function of the inputs alone, so
/// encoding the same inputs twice yields identical bytes.
pub fn encode_envelope(sig_type: u16, public_key: &Vec<u8>, tags: &Vec<Tag>, payload: &Vec<u8>) -> (r: Vec<u8>)
    ensures
        r@ == spec_envelope(sig_type, public_key@, spec_tags_model(tags@), payload@),
{
    let mut out: Vec<u8> = Vec::new();
    push_u16_be(&mut out, sig_type);
    push_len_prefixed(&mut out, public_key.as_slice());
    push_u64_be(&mut out, tags.len() as u64);
    let ghost header = out@;
    assert(spec_tags_model(tags@).len() == tags@.len());
    let mut i: usize = 0;
    while i < tags.len()
        invariant
            i <= tags@.len(),
            header == spec_u16_be(sig_type) + spec_len_prefixed(public_key@)
                + spec_u64_be(tags@.len() as u64),
            out@ == header + spec_encode_tags(spec_tags_model(tags@.take(i as int))),
        decreases tags@.len() - i,
    {
        let t = &tags[i];
        push_len_prefixed(&mut out, t.name.as_slice());
        push_len_prefixed(&mut out, t.value.as_slice());
        proof {
            lemma_encode_tags_push(spec_tags_model(tags@.take(i as int)), (t.name@, t.value@));
            assert(spec_tags_model(tags@.take(i + 1 as int))
                =~= spec_tags_model(tags@.take(i as int)).push((t.name@, t.value@)));
            assert(out@ =~= header
                + spec_encode_tags(spec_tags_model(tags@.take(i + 1 as int))));
        }
        i = i + 1;
    }
    assert(tags@.take(tags@.len() as int) =~= tags@);
    append_bytes(&mut out, payload.as_slice());
    assert(out@ =~= spec_envelope(sig_type, public_key@, spec_tags_model(tags@), payload@));
    out
}

/// A length-prefixed byte string read off the front of `b`: the bytes and the
/// remainder, or nothing if `b` is too short.
pub open spec fn spec_decode_bytes(b: Seq<u8>) -> Option<(Seq<u8>, Seq<u8>)> {
    if b.len() < 8 {
        None
    } else {
        let len = spec_u64_of(b.take(8)) as int;
        if b.len() < 8 + len {
            None
        } else {
            Some((b.subrange(8, 8 + len), b.skip(8 + len)))
        }
    }
}

/// One tag read off the front of `b`: its (name, value) and the remainder.
pub open spec fn spec_decode_tag(b: Seq<u8>) -> Option<((Seq<u8>, Seq<u8>), Seq<u8>)> {
    match spec_decode_bytes(b) {
        None => None,
        Some((name, rest)) => match spec_decode_bytes(rest) {
            None => None,
            Some((value, rest2)) => Some(((name, value), rest2)),
        },
    }
}

/// Exactly `n` tags read off the front of `b`, and the remainder.
pub open spec fn spec_decode_tags(b: Seq<u8>, n: nat) -> Option<(Seq<(Seq<u8>, Seq<u8>)>, Seq<u8>)>
    decreases n,
{
    if n == 0 {
        Some((Seq::empty(), b))
    } else {
        match spec_decode_tag(b) {
            None => None,
            Some((t, rest)) => match spec_decode_tags(rest, (n - 1) as nat) {
                None => None,
                Some((ts, rest2)) => Some((seq![t] + ts, rest2)),
            },
        }
    }
}

/// The parts of a canonically encoded envelope: scheme identifier, public
/// key, tag list and payload, or nothing if the bytes are not an envelope.
pub open spec fn spec_decode_envelope(b: Seq<u8>) -> Option<
    (u16, Seq<u8>, Seq<(Seq<u8>, Seq<u8>)>, Seq<u8>),
> {
    if b.len() < 2 {
        None
    } else {
        let sig_type = spec_u16_of(b.take(2));
        match spec_decode_bytes(b.skip(2)) {
            None => None,
            Some((public_key, rest)) => {
                if rest.len() < 8 {
                    None
                } else {
                    let n = spec_u64_of(rest.take(8));
                    match spec_decode_tags(rest.skip(8), n as nat) {
                        None => None,
                        Some((ts, payload)) => Some((sig_type, public_key, ts, payload)),
                    }
                }
            },
        }
    }
}

proof fn lemma_decode_bytes_of_prefixed(x: Seq<u8>, rest: Seq<u8>)
    requires
        x.len() <= u64::MAX,
    ensures
        spec_decode_bytes(spec_len_prefixed(x) + rest) == Some((x, rest)),
{
    let b = spec_len_prefixed(x) + rest;
    lemma_u64_roundtrip(x.len() as u64);
    assert(b.take(8) =~= spec_u64_be(x.len() as u64));
    assert(spec_u64_of(b.take(8)) == x.len() as u64);
    assert(b.subrange(8, 8 + x.len() as int) =~= x);
    assert(b.skip(8 + x.len() as int) =~= rest);
}

proof fn lemma_decode_tag_of_encoded(t: (Seq<u8>, Seq<u8>), rest: Seq<u8>)
    requires
        spec_tag_fits(t),
    ensures
        spec_decode_tag(spec_encode_tag(t) + rest) == Some((t, rest)),
{
    let b = spec_encode_tag(t) + rest;
    assert(b =~= spec_len_prefixed(t.0) + (spec_len_prefixed(t.1) + rest));
    lemma_decode_bytes_of_prefixed(t.0, spec_len_prefixed(t.1) + rest);
    lemma_decode_bytes_of_prefixed(t.1, rest);
}

proof fn lemma_decode_tags_of_encoded(ts: Seq<(Seq<u8>, Seq<u8>)>, rest: Seq<u8>)
    requires
        forall|i: int| 0 <= i < ts.len() ==> spec_tag_fits(#[trigger] ts[i]),
    ensures
        spec_decode_tags(spec_encode_tags(ts) + rest, ts.len()) == Some((ts, rest)),
    decreases ts.len(),
{
    if ts.len() == 0 {
        assert(spec_encode_tags(ts) + rest =~= rest);
        assert(spec_decode_tags(rest, 0) == Some((Seq::<(Seq<u8>, Seq<u8>)>::empty(), rest)));
        assert(Seq::<(Seq<u8>, Seq<u8>)>::empty() =~= ts);
    } else {
        let b = spec_encode_tags(ts) + rest;
        assert(b =~= spec_encode_tag(ts[0]) + (spec_encode_tags(ts.drop_first()) + rest));
        lemma_decode_tag_of_encoded(ts[0], spec_encode_tags(ts.drop_first()) + rest);
        lemma_decode_tags_of_encoded(ts.drop_first(), rest);
        assert(spec_decode_tags(b, ts.len()) == Some((seq![ts[0]] + ts.drop_first(), rest)));
        assert(seq![ts[0]] + ts.drop_first() =~= ts);
    }
}

/// The round-trip law: decoding a canonically encoded envelope recovers the
/// exact scheme identifier, public key bytes, ordered tag list and payload
/// bytes, including the empty-tag-list and empty-payload cases.
pub proof fn lemma_envelope_round_trip(
    sig_type: u16,
    public_key: Seq<u8>,
    ts: Seq<(Seq<u8>, Seq<u8>)>,
    payload: Seq<u8>,
)
    requires
        spec_envelope_fits(public_key, ts),
    ensures
        spec_decode_envelope(spec_envelope(sig_type, public_key, ts, payload))
            == Some((sig_type, public_key, ts, payload)),
{
    let b = spec_envelope(sig_type, public_key, ts, payload);
    lemma_u16_roundtrip(sig_type);
    assert(b.take(2) =~= spec_u16_be(sig_type));
    assert(b.skip(2) =~= spec_len_prefixed(public_key)
        + (spec_u64_be(ts.len() as u64) + (spec_encode_tags(ts) + payload)));
    lemma_decode_bytes_of_prefixed(
        public_key,
        spec_u64_be(ts.len() as u64) + (spec_encode_tags(ts) + payload),
    );
    let rest = spec_u64_be(ts.len() as u64) + (spec_encode_tags(ts) + payload);
    lemma_u64_roundtrip(ts.len() as u64);
    assert(rest.take(8) =~= spec_u64_be(ts.len() as u64));
    assert(rest.skip(8) =~= spec_encode_tags(ts) + payload);
    lemma_decode_tags_of_encoded(ts, payload);
}

/// Envelope encoding is a function of the scheme identifier, public key,
/// tag list and payload alone: equal inputs always give equal bytes.
pub proof fn lemma_envelope_deterministic(
    sig_type1: u16,
    public_key1: Seq<u8>,
    ts1: Seq<(Seq<u8>, Seq<u8>)>,
    payload1: Seq<u8>,
    sig_type2: u16,
    public_key2: Seq<u8>,
    ts2: Seq<(Seq<u8>, Seq<u8>)>,
    payload2: Seq<u8>,
)
    requires
        sig_type1 == sig_type2,
        public_key1 == public_key2,
        ts1 == ts2,
        payload1 == payload2,
    ensures
        spec_envelope(sig_type1, public_key1, ts1, payload1)
            == spec_envelope(sig_type2, public_key2, ts2, payload2),
{
}

/// Envelope encoding is injective: two envelopes with the same bytes were
/// built from the same scheme identifier, public key, tag list and payload.
/// In particular, changing the order of distinct tags changes the bytes.
pub proof fn lemma_envelope_injective(
    sig_type1: u16,
    public_key1: Seq<u8>,
    ts1: Seq<(Seq<u8>, Seq<u8>)>,
    payload1: Seq<u8>,
    sig_type2: u16,
    public_key2: Seq<u8>,
    ts2: Seq<(Seq<u8>, Seq<u8>)>,
    payload2: Seq<u8>,
)
    requires
        spec_envelope_fits(public_key1, ts1),
        spec_envelope_fits(public_key2, ts2),
        spec_envelope(sig_type1, public_key1, ts1, payload1)
            == spec_envelope(sig_type2, public_key2, ts2, payload2),
    ensures
        sig_type1 == sig_type2,
        public_key1 == public_key2,
        ts1 == ts2,
        payload1 == payload2,
{
    lemma_envelope_round_trip(sig_type1, public_key1, ts1, payload1);
    lemma_envelope_round_trip(sig_type2, public_key2, ts2, payload2);
}

/// Tag order is semantically significant: two distinct tag lists, in
/// particular the same tags in a different order, never encode to the same
/// envelope bytes.
pub proof fn lemma_tag_order_significant(
    sig_type: u16,
    public_key: Seq<u8>,
    ts1: Seq<(Seq<u8>, Seq<u8>)>,
    ts2: Seq<(Seq<u8>, Seq<u8>)>,
    payload: Seq<u8>,
)
    requires
        spec_envelope_fits(public_key, ts1),
        spec_envelope_fits(public_key, ts2),
        ts1 != ts2,
    ensures
        spec_envelope(sig_type, public_key, ts1, payload)
            != spec_envelope(sig_type, public_key, ts2, payload),
{
    if spec_envelope(sig_type, public_key, ts1, payload)
        == spec_envelope(sig_type, public_key, ts2, payload) {
        lemma_envelope_injective(
            sig_type,
            public_key,
            ts1,
            payload,
            sig_type,
            public_key,
            ts2,
            payload,
        );
    }
}

fn read_u16_be(b: &[u8]) -> (r: u16)
    requires
        b@.len() >= 2,
    ensures
        r == spec_u16_of(b@.take(2)),
{
    let r = ((b[0] as u16) << 8) | (b[1] as u16);
    assert(b@.take(2)[0] == b@[0]);
    assert(b@.take(2)[1] == b@[1]);
    r
}

fn read_u64_be(b: &[u8]) -> (r: u64)
    requires
        b@.len() >= 8,
    ensures
        r == spec_u64_of(b@.take(8)),
{
    let r = ((b[0] as u64) << 56) | ((b[1] as u64) << 48) | ((b[2] as u64) << 40)
        | ((b[3] as u64) << 32) | ((b[4] as u64) << 24) | ((b[5] as u64) << 16)
        | ((b[6] as u64) << 8) | (b[7] as u64);
    assert forall|i: int| 0 <= i < 8 implies b@.take(8)[i] == b@[i] by {}
    r
}

fn decode_bytes(b: &[u8]) -> (r: Option<(Vec<u8>, &[u8])>)
    ensures
        r is None <==> spec_decode_bytes(b@) is None,
        r matches Some((x, rest)) ==> spec_decode_bytes(b@) == Some((x@, rest@)),
{
    if b.len() < 8 {
        return None;
    }
    let len64 = read_u64_be(b);
    if len64 > (b.len() - 8) as u64 {
        return None;
    }
    let len = len64 as usize;
    let x = vstd::slice::slice_to_vec(vstd::slice::slice_subrange(b, 8, 8 + len));
    let rest = vstd::slice::slice_subrange(b, 8 + len, b.len());
    assert(x@ == b@.subrange(8, 8 + len64 as int));
    assert(rest@ == b@.skip(8 + len64 as int));
    Some((x, rest))
}

fn decode_tag(b: &[u8]) -> (r: Option<(Tag, &[u8])>)
    ensures
        r is None <==> spec_decode_tag(b@) is None,
        r matches Some((t, rest)) ==> spec_decode_tag(b@) == Some(((t.name@, t.value@), rest@)),
{
    match decode_bytes(b) {
        None => None,
        Some((name, after_name)) => match decode_bytes(after_name) {
            None => None,
            Some((value, rest)) => Some((Tag { name, value }, rest)),
        },
    }
}

fn decode_tags(b: &[u8], n: u64) -> (r: Option<(Vec<Tag>, &[u8])>)
    ensures
        r is None <==> spec_decode_tags(b@, n as nat) is None,
        r matches Some((ts, rest)) ==> spec_decode_tags(b@, n as nat)
            == Some((spec_tags_model(ts@), rest@)),
    decreases n,
{
    if n == 0 {
        let ts: Vec<Tag> = Vec::new();
        assert(spec_tags_model(ts@) =~= Seq::<(Seq<u8>, Seq<u8>)>::empty());
        return Some((ts, b));
    }
    match decode_tag(b) {
        None => None,
        Some((t, after_tag)) => match decode_tags(after_tag, n - 1) {
            None => None,
            Some((mut ts, rest)) => {
                let ghost tail = spec_tags_model(ts@);
                ts.insert(0, t);
                assert(spec_tags_model(ts@) =~= seq![(t.name@, t.value@)] + tail);
                Some((ts, rest))
            },
        },
    }
}

/// Reads a canonically encoded envelope back into its parts: the scheme
/// identifier, public key, ordered tag list, and payload. Returns nothing
/// exactly when the bytes are not a canonical envelope.
pub fn decode_envelope(b: &[u8]) -> (r: Option<(u16, Vec<u8>, Vec<Tag>, Vec<u8>)>)
    ensures
        r is None <==> spec_decode_envelope(b@) is None,
        r matches Some((sig_type, public_key, ts, payload)) ==> spec_decode_envelope(b@)
            == Some((sig_type, public_key@, spec_tags_model(ts@), payload@)),
{
    if b.len() < 2 {
        return None;
    }
    let sig_type = read_u16_be(b);
    let after_type = vstd::slice::slice_subrange(b, 2, b.len());
    assert(after_type@ == b@.skip(2));
    match decode_bytes(after_type) {
        None => None,
        Some((public_key, rest)) => {
            if rest.len() < 8 {
                return None;
            }
            let n = read_u64_be(rest);
            let after_count = vstd::slice::slice_subrange(rest, 8, rest.len());
            assert(after_count@ == rest@.skip(8));
            match decode_tags(after_count, n) {
                None => None,
                Some((ts, payload_slice)) => {
                    let payload = vstd::slice::slice_to_vec(payload_slice);
                    Some((sig_type, public_key, ts, payload))
                },
            }
        },
    }
}

} // verus!
