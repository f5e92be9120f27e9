//! The byte layout of one event on the wire, as bincode writes it, and the
//! length prefix of the stream transport.

use vstd::prelude::*;
use vstd::bytes::{
    lemma_auto_spec_u32_to_from_le_bytes, lemma_auto_spec_u64_to_from_le_bytes,
    spec_u32_to_le_bytes, spec_u64_to_le_bytes,
};

verus! {

/// An event's fields as they travel: type tag, x, y, delta x, delta y.
pub type WireFields = (u32, i64, i64, Option<i64>, Option<i64>);

/// The two's-complement bits of `v`.
pub open spec fn i64_bits(v: i64) -> u64 {
    #[verifier::truncate] (v as u64)
}

/// An optional integer on the wire: a tag byte, then the value if present.
pub open spec fn option_bytes(o: Option<i64>) -> Seq<u8> {
    match o {
        None => seq![0u8],
        Some(v) => seq![1u8] + spec_u64_to_le_bytes(i64_bits(v)),
    }
}

/// The bytes of `f`: each field in order, integers fixed-width and little-endian.
pub open spec fn wire_bytes(f: WireFields) -> Seq<u8> {
    spec_u32_to_le_bytes(f.0) + (spec_u64_to_le_bytes(i64_bits(f.1)) + (spec_u64_to_le_bytes(i64_bits(f.2)) + (option_bytes(f.3) + option_bytes(f.4))))
}

/// `p` is the start of `s`.
pub open spec fn is_prefix(p: Seq<u8>, s: Seq<u8>) -> bool {
    p.len() <= s.len() && s.subrange(0, p.len() as int) == p
}

/// `s` starts with the bytes of some fields.
pub open spec fn decodable(s: Seq<u8>) -> bool {
    exists|f: WireFields| is_prefix(#[trigger] wire_bytes(f), s)
}

/// The fields that `s` starts with, if any.
pub open spec fn decoded(s: Seq<u8>) -> Option<WireFields> {
    if decodable(s) {
        Some(choose|f: WireFields| is_prefix(#[trigger] wire_bytes(f), s))
    } else {
        None
    }
}

/// The 4-byte big-endian form of `n`.
pub open spec fn be_u32_bytes(n: u32) -> Seq<u8> {
    seq![
        (n / 0x1000000) as u8,
        (n / 0x10000 % 0x100) as u8,
        (n / 0x100 % 0x100) as u8,
        (n % 0x100) as u8,
    ]
}

/// The number that the first four bytes of `b` hold, big-endian.
pub open spec fn be_u32_value(b: Seq<u8>) -> int {
    b[0] * 0x1000000 + b[1] * 0x10000 + b[2] * 0x100 + b[3]
}

/// A stream frame: the payload's length as 4 bytes big-endian, then the payload.
pub open spec fn framed(payload: Seq<u8>) -> Seq<u8> {
    be_u32_bytes(payload.len() as u32) + payload
}

/// bincode's error, only carried from the calls below to where it is mapped
/// to the library's own answer.
#[verifier::external_type_specification]
#[verifier::external_body]
pub struct ExBincodeErrorKind(bincode::ErrorKind);

/// Relies on `bincode::serialize`: with its default options (fixed-width
/// integers, little-endian, no size limit) a tuple is written field after
/// field, an `Option` as a tag byte 0 or 1 followed by the value. Nothing in
/// these fields can fail to serialise into a `Vec`.
#[verifier::external_body]
fn bincode_serialize(fields: &WireFields) -> (r: Result<Vec<u8>, Box<bincode::ErrorKind>>)
    ensures
        r is Ok,
        r is Ok ==> r->Ok_0@ == wire_bytes(*fields),
{
    bincode::serialize(fields)
}

/// Relies on `bincode::deserialize`: it reads the same layout from the start of
/// `bytes`, allows trailing bytes, and fails when the bytes run out or an
/// option tag is neither 0 nor 1.
#[verifier::external_body]
fn bincode_deserialize(bytes: &[u8]) -> (r: Result<WireFields, Box<bincode::ErrorKind>>)
    ensures
        match r {
            Ok(f) => is_prefix(wire_bytes(f), bytes@),
            Err(_) => !decodable(bytes@),
        },
{
    bincode::deserialize(bytes)
}

/// Writes `fields` in the wire layout.
pub fn encode_fields(fields: &WireFields) -> (r: Vec<u8>)
    ensures
        r@ == wire_bytes(*fields),
{
    match bincode_serialize(fields) {
        Ok(bytes) => bytes,
        Err(_) => Vec::new(),
    }
}

/// Reads the fields that `bytes` starts with; `None` when it starts with none.
pub fn decode_fields(bytes: &[u8]) -> (r: Option<WireFields>)
    ensures
        r == decoded(bytes@),
{
    match bincode_deserialize(bytes) {
        Ok(f) => {
            proof {
                lemma_decoded_is_unique(f, bytes@);
            }
            Some(f)
        },
        Err(_) => None,
    }
}

proof fn lemma_prefix_split(a: Seq<u8>, b: Seq<u8>, s: Seq<u8>)
    requires
        is_prefix(a + b, s),
    ensures
        is_prefix(a, s),
        is_prefix(b, s.subrange(a.len() as int, s.len() as int)),
{
    assert(s.subrange(0, a.len() as int) =~= (a + b).subrange(0, a.len() as int));
    assert((a + b).subrange(0, a.len() as int) =~= a);
    let t = s.subrange(a.len() as int, s.len() as int);
    assert(t.subrange(0, b.len() as int) =~= (a + b).subrange(a.len() as int, (a + b).len() as int));
    assert((a + b).subrange(a.len() as int, (a + b).len() as int) =~= b);
}

proof fn lemma_same_length_prefixes(a: Seq<u8>, b: Seq<u8>, s: Seq<u8>)
    requires
        is_prefix(a, s),
        is_prefix(b, s),
        a.len() == b.len(),
    ensures
        a == b,
{
}

proof fn lemma_u64_bytes_unique(x: i64, y: i64, s: Seq<u8>)
    requires
        is_prefix(spec_u64_to_le_bytes(i64_bits(x)), s),
        is_prefix(spec_u64_to_le_bytes(i64_bits(y)), s),
    ensures
        x == y,
{
    lemma_auto_spec_u64_to_from_le_bytes();
    lemma_same_length_prefixes(spec_u64_to_le_bytes(i64_bits(x)), spec_u64_to_le_bytes(i64_bits(y)), s);
    assert(i64_bits(x) == i64_bits(y));
    assert(#[verifier::truncate] (x as u64) == #[verifier::truncate] (y as u64) ==> x == y)
        by (bit_vector);
}

proof fn lemma_option_unique(a: Option<i64>, b: Option<i64>, s: Seq<u8>)
    requires
        is_prefix(option_bytes(a), s),
        is_prefix(option_bytes(b), s),
    ensures
        a == b,
        option_bytes(a).len() == option_bytes(b).len(),
{
    lemma_auto_spec_u64_to_from_le_bytes();
    assert(option_bytes(a)[0] == s[0]);
    assert(option_bytes(b)[0] == s[0]);
    match (a, b) {
        (Some(x), Some(y)) => {
            lemma_prefix_split(seq![1u8], spec_u64_to_le_bytes(i64_bits(x)), s);
            lemma_prefix_split(seq![1u8], spec_u64_to_le_bytes(i64_bits(y)), s);
            lemma_u64_bytes_unique(x, y, s.subrange(1, s.len() as int));
        },
        _ => {},
    }
}

/// Two sets of fields whose bytes both start `s` are the same fields.
pub proof fn lemma_wire_unique(f: WireFields, g: WireFields, s: Seq<u8>)
    requires
        is_prefix(wire_bytes(f), s),
        is_prefix(wire_bytes(g), s),
    ensures
        f == g,
{
    lemma_auto_spec_u32_to_from_le_bytes();
    lemma_auto_spec_u64_to_from_le_bytes();
    let s0 = s;
    let f1 = spec_u64_to_le_bytes(i64_bits(f.1)) + (spec_u64_to_le_bytes(i64_bits(f.2)) + (option_bytes(f.3) + option_bytes(f.4)));
    let g1 = spec_u64_to_le_bytes(i64_bits(g.1)) + (spec_u64_to_le_bytes(i64_bits(g.2)) + (option_bytes(g.3) + option_bytes(g.4)));
    lemma_prefix_split(spec_u32_to_le_bytes(f.0), f1, s0);
    lemma_prefix_split(spec_u32_to_le_bytes(g.0), g1, s0);
    lemma_same_length_prefixes(spec_u32_to_le_bytes(f.0), spec_u32_to_le_bytes(g.0), s0);
    let s1 = s0.subrange(4, s0.len() as int);
    let f2 = spec_u64_to_le_bytes(i64_bits(f.2)) + (option_bytes(f.3) + option_bytes(f.4));
    let g2 = spec_u64_to_le_bytes(i64_bits(g.2)) + (option_bytes(g.3) + option_bytes(g.4));
    lemma_prefix_split(spec_u64_to_le_bytes(i64_bits(f.1)), f2, s1);
    lemma_prefix_split(spec_u64_to_le_bytes(i64_bits(g.1)), g2, s1);
    lemma_u64_bytes_unique(f.1, g.1, s1);
    let s2 = s1.subrange(8, s1.len() as int);
    let f3 = option_bytes(f.3) + option_bytes(f.4);
    let g3 = option_bytes(g.3) + option_bytes(g.4);
    lemma_prefix_split(spec_u64_to_le_bytes(i64_bits(f.2)), f3, s2);
    lemma_prefix_split(spec_u64_to_le_bytes(i64_bits(g.2)), g3, s2);
    lemma_u64_bytes_unique(f.2, g.2, s2);
    let s3 = s2.subrange(8, s2.len() as int);
    lemma_prefix_split(option_bytes(f.3), option_bytes(f.4), s3);
    lemma_prefix_split(option_bytes(g.3), option_bytes(g.4), s3);
    lemma_option_unique(f.3, g.3, s3);
    let s4 = s3.subrange(option_bytes(f.3).len() as int, s3.len() as int);
    lemma_option_unique(f.4, g.4, s4);
}

proof fn lemma_decoded_is_unique(f: WireFields, s: Seq<u8>)
    requires
        is_prefix(wire_bytes(f), s),
    ensures
        decoded(s) == Some(f),
{
    assert(decodable(s));
    let g = choose|g: WireFields| is_prefix(#[trigger] wire_bytes(g), s);
    lemma_wire_unique(f, g, s);
}

/// Bytes written for some fields read back as exactly those fields.
pub proof fn lemma_wire_round_trip(f: WireFields)
    ensures
        decoded(wire_bytes(f)) == Some(f),
{
    let s = wire_bytes(f);
    assert(s.subrange(0, s.len() as int) =~= s);
    lemma_decoded_is_unique(f, s);
}

/// Prefixes `payload` with its length, 4 bytes big-endian, for the stream transport.
pub fn frame_payload(payload: &[u8]) -> (r: Vec<u8>)
    requires
        payload@.len() <= u32::MAX,
    ensures
        r@ == framed(payload@),
{
    let n = payload.len() as u32;
    let mut out: Vec<u8> = Vec::new();
    out.push((n / 0x1000000) as u8);
    out.push((n / 0x10000 % 0x100) as u8);
    out.push((n / 0x100 % 0x100) as u8);
    out.push((n % 0x100) as u8);
    let mut i: usize = 0;
    while i < payload.len()
        invariant
            i <= payload@.len(),
            n == payload@.len(),
            out@ == be_u32_bytes(n) + payload@.subrange(0, i as int),
        decreases payload@.len() - i,
    {
        out.push(payload[i]);
        i += 1;
        assert(payload@.subrange(0, i as int) =~= payload@.subrange(0, i - 1) + seq![payload@[i - 1]]);
    }
    assert(payload@.subrange(0, i as int) =~= payload@);
    out
}

/// The payload length that a stream frame's header announces; `None` when
/// fewer than 4 header bytes are given.
pub fn frame_length(header: &[u8]) -> (r: Option<u32>)
    ensures
        match r {
            Some(n) => header@.len() >= 4 && n as int == be_u32_value(header@),
            None => header@.len() < 4,
        },
{
    if header.len() < 4 {
        return None;
    }
    Some(
        header[0] as u32 * 0x1000000 + header[1] as u32 * 0x10000 + header[2] as u32 * 0x100
            + header[3] as u32,
    )
}

/// A frame's header announces exactly its payload's length, and the payload
/// follows it.
pub proof fn lemma_frame_round_trip(payload: Seq<u8>)
    requires
        payload.len() <= u32::MAX,
    ensures
        framed(payload).len() == 4 + payload.len(),
        be_u32_value(framed(payload)) == payload.len(),
        framed(payload).subrange(4, 4 + payload.len() as int) == payload,
{
    let n = payload.len() as u32;
    let f = framed(payload);
    assert(f.subrange(4, 4 + payload.len() as int) =~= payload);
    assert(be_u32_value(be_u32_bytes(n)) == n) by {
        let a = n / 0x1000000;
        let b = n / 0x10000 % 0x100;
        let c = n / 0x100 % 0x100;
        let d = n % 0x100;
        assert(n == a * 0x1000000 + b * 0x10000 + c * 0x100 + d) by (bit_vector)
            requires
                a == n / 0x1000000,
                b == n / 0x10000 % 0x100,
                c == n / 0x100 % 0x100,
                d == n % 0x100;
    }
}

} // verus!
