//! CBOR framing of the protocol's tuples.
//!
//! Encoding goes through `ciborium`; the bytes it writes for unsigned integers,
//! text strings and definite-length arrays are stated exactly below (RFC 8949,
//! preferred serialisation). Decoding is also left to `ciborium`; what it accepts
//! is named, not restated.

use vstd::prelude::*;
use vstd::utf8::encode_utf8;

verus! {

/// Big-endian bytes of the `k` low-order bytes of `n`.
pub open spec fn be_bytes(n: nat, k: nat) -> Seq<u8>
    decreases k,
{
    if k == 0 {
        Seq::empty()
    } else {
        be_bytes(n / 256, (k - 1) as nat).push((n % 256) as u8)
    }
}

/// The head of a CBOR data item: major type and argument, in the shortest form.
pub open spec fn cbor_head(major: u8, n: nat) -> Seq<u8> {
    let initial = (major * 32) as nat;
    if n <= 23 {
        seq![(initial + n) as u8]
    } else if n <= 0xff {
        seq![(initial + 24) as u8, n as u8]
    } else if n <= 0xffff {
        seq![(initial + 25) as u8] + be_bytes(n, 2)
    } else if n <= 0xffff_ffff {
        seq![(initial + 26) as u8] + be_bytes(n, 4)
    } else {
        seq![(initial + 27) as u8] + be_bytes(n, 8)
    }
}

/// CBOR of an unsigned integer (major type 0).
pub open spec fn cbor_uint(n: nat) -> Seq<u8> {
    cbor_head(0, n)
}

/// CBOR of a text string given by its UTF-8 bytes (major type 3).
pub open spec fn cbor_text(utf8: Seq<u8>) -> Seq<u8> {
    cbor_head(3, utf8.len()) + utf8
}

/// Concatenated CBOR of each unsigned integer, in order.
pub open spec fn cbor_uints(v: Seq<u64>) -> Seq<u8>
    decreases v.len(),
{
    if v.len() == 0 {
        Seq::empty()
    } else {
        cbor_uints(v.drop_last()) + cbor_uint(v.last() as nat)
    }
}

/// CBOR of a definite-length array of unsigned integers.
pub open spec fn cbor_uint_array(v: Seq<u64>) -> Seq<u8> {
    cbor_head(4, v.len()) + cbor_uints(v)
}

/// CBOR of the triple `(text, a, b)` as a definite-length array.
pub open spec fn cbor_text_uint_uint(s: Seq<char>, a: u64, b: u64) -> Seq<u8> {
    cbor_head(4, 3) + cbor_text(encode_utf8(s)) + cbor_uint(a as nat) + cbor_uint(b as nat)
}

/// What `ciborium` decodes from `b` as the one-element tuple `(i8,)`, if anything.
pub uninterp spec fn cbor_decoded_i8(b: Seq<u8>) -> Option<i8>;

/// What `ciborium` decodes from `b` as the pair `(i8, i8)`, if anything.
pub uninterp spec fn cbor_decoded_i8_pair(b: Seq<u8>) -> Option<(i8, i8)>;

/// What `ciborium` decodes from `b` as the triple `(u8, String, u8)`, if anything.
pub uninterp spec fn cbor_decoded_hello(b: Seq<u8>) -> Option<(u8, Seq<char>, u8)>;

/// Relies on `ciborium::into_writer` on a `Vec<u64>`: a sequence of known length
/// becomes an array head followed by each integer's head; writing into a
/// `Vec<u8>` cannot fail.
#[verifier::external_body]
pub(crate) fn encode_uint_array(v: &Vec<u64>) -> (r: Vec<u8>)
    ensures
        r@ == cbor_uint_array(v@),
{
    let mut bytes = Vec::new();
    let _ = ciborium::into_writer(v, &mut bytes);
    bytes
}

/// Relies on `ciborium::into_writer` on a `(&str, u64, u64)`: a tuple becomes an
/// array of known length; a string becomes a text head and its UTF-8 bytes.
#[verifier::external_body]
pub(crate) fn encode_text_uint_uint(s: &str, a: u64, b: u64) -> (r: Vec<u8>)
    ensures
        r@ == cbor_text_uint_uint(s@, a, b),
{
    let mut bytes = Vec::new();
    let _ = ciborium::into_writer(&(s, a, b), &mut bytes);
    bytes
}

/// Relies on `ciborium::from_reader::<(i8,), _>`: its outcome depends on the bytes alone.
#[verifier::external_body]
pub(crate) fn decode_i8(b: &[u8]) -> (r: Option<i8>)
    ensures
        r == cbor_decoded_i8(b@),
{
    match ciborium::from_reader::<(i8,), &[u8]>(b) {
        Ok((d,)) => Some(d),
        Err(_) => None,
    }
}

/// Relies on `ciborium::from_reader::<(i8, i8), _>`: its outcome depends on the bytes alone.
#[verifier::external_body]
pub(crate) fn decode_i8_pair(b: &[u8]) -> (r: Option<(i8, i8)>)
    ensures
        r == cbor_decoded_i8_pair(b@),
{
    ciborium::from_reader::<(i8, i8), &[u8]>(b).ok()
}

/// Relies on `ciborium::from_reader::<(u8, String, u8), _>`: its outcome depends on
/// the bytes alone.
#[verifier::external_body]
pub(crate) fn decode_hello(b: &[u8]) -> (r: Option<(u8, String, u8)>)
    ensures
        match r {
            Some((v, id, m)) => cbor_decoded_hello(b@) == Some((v, id@, m)),
            None => cbor_decoded_hello(b@).is_none(),
        },
{
    ciborium::from_reader::<(u8, String, u8), &[u8]>(b).ok()
}

} // verus!
