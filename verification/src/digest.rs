//! The hash primitive and the hex encoding of its output.
//!
//! The digest over a commit's graph is SHA-512 of the framed byte stream; its
//! value is left uninterpreted here and named `sha512_of`. The hex encoding,
//! by contrast, is fully specified: two lowercase digits per byte, high
//! nibble first.

use vstd::prelude::*;

verus! {

/// The SHA-512 digest of a byte sequence. The digest is a fixed function of
/// the bytes alone; nothing further is assumed of its value.
pub uninterp spec fn sha512_of(s: Seq<u8>) -> Seq<u8>;

/// Relies on `openssl::hash::hash` with `MessageDigest::sha512`: the 64-byte
/// digest depends on the input bytes alone. An internal failure of the
/// OpenSSL provider — never a function of the input — aborts the process.
#[verifier::external_body]
pub fn sha512(b: &[u8]) -> (r: Vec<u8>)
    ensures
        r@ == sha512_of(b@),
        r@.len() == 64,
{
    openssl::hash::hash(openssl::hash::MessageDigest::sha512(), b).unwrap().to_vec()
}

/// The lowercase hex digit of a nibble.
pub open spec fn spec_hex_digit(n: u8) -> u8 {
    if n < 10 {
        (48 + n) as u8
    } else {
        (87 + n) as u8
    }
}

/// The lowercase hex encoding of a byte sequence: two digits per byte, high
/// nibble first.
pub open spec fn hex_of(s: Seq<u8>) -> Seq<u8>
    decreases s.len(),
{
    if s.len() == 0 {
        Seq::empty()
    } else {
        seq![spec_hex_digit(s[0] / 16), spec_hex_digit(s[0] % 16)] + hex_of(s.drop_first())
    }
}

/// Hex encoding doubles the length.
pub proof fn lemma_hex_of_len(s: Seq<u8>)
    ensures
        hex_of(s).len() == 2 * s.len(),
    decreases s.len(),
{
    if s.len() > 0 {
        lemma_hex_of_len(s.drop_first());
    }
}

/// A byte normalized to lowercase hex: the uppercase hex letters `A`–`F`
/// become their lowercase forms, every other byte stays as it is.
pub open spec fn lower_hex_byte(b: u8) -> u8 {
    if 65 <= b <= 70 {
        (b + 32) as u8
    } else {
        b
    }
}

/// A byte sequence normalized to lowercase hex, byte for byte.
pub open spec fn lower_hex(s: Seq<u8>) -> Seq<u8> {
    s.map_values(|b: u8| lower_hex_byte(b))
}

/// Normalize a byte sequence to lowercase hex.
pub fn lower_hex_bytes(v: &[u8]) -> (r: Vec<u8>)
    ensures
        r@ == lower_hex(v@),
{
    let mut r: Vec<u8> = Vec::new();
    let mut i: usize = 0;
    while i < v.len()
        invariant
            i <= v@.len(),
            r@.len() == i,
            forall|j: int| 0 <= j < i ==> r@[j] == lower_hex_byte(v@[j]),
        decreases v@.len() - i,
    {
        let b = v[i];
        if b >= 65 && b <= 70 {
            r.push(b + 32);
        } else {
            r.push(b);
        }
        i += 1;
    }
    proof {
        assert(r@ =~= lower_hex(v@));
    }
    r
}

/// Relies on `hex::encode`: each input byte becomes two lowercase hex
/// digits, high nibble first, in input order.
#[verifier::external_body]
pub fn hex_encode(b: &[u8]) -> (r: Vec<u8>)
    ensures
        r@ == hex_of(b@),
{
    hex::encode(b).into_bytes()
}

} // verus!
