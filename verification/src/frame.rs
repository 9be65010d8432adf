//! Framing one object into the digest stream.
//!
//! Each object contributes the header `"<kind-name> <byte-length>"`, a single
//! NUL separator byte, and then the object's raw bytes — decimal length, no
//! trailing newline. The stream fed to the hash is the concatenation of these
//! frames in traversal order.

use vstd::prelude::*;

use crate::kind::{kind_name, spec_kind_name, ObjKind};

verus! {

/// The decimal digits of `n`, most significant first, no sign, no padding.
pub open spec fn spec_dec_digits(n: nat) -> Seq<u8>
    decreases n,
{
    if n < 10 {
        seq![(48 + n) as u8]
    } else {
        spec_dec_digits(n / 10).push((48 + n % 10) as u8)
    }
}

/// The decimal digits of `n` as bytes.
pub fn dec_digits(n: usize) -> (v: Vec<u8>)
    ensures
        v@ == spec_dec_digits(n as nat),
    decreases n,
{
    if n < 10 {
        let mut v: Vec<u8> = Vec::new();
        v.push(48 + (n as u8));
        proof {
            assert(v@ =~= spec_dec_digits(n as nat));
        }
        v
    } else {
        let mut v = dec_digits(n / 10);
        v.push(48 + ((n % 10) as u8));
        v
    }
}

/// The frame one object contributes to the digest stream:
/// its kind's name, a space, the decimal byte length, a NUL byte, then the
/// raw bytes themselves.
pub open spec fn spec_frame(k: ObjKind, bytes: Seq<u8>) -> Seq<u8> {
    spec_kind_name(k) + seq![32u8] + spec_dec_digits(bytes.len()) + seq![0u8] + bytes
}

/// Append all of `b` to `acc`.
pub fn push_bytes(acc: &mut Vec<u8>, b: &[u8])
    ensures
        final(acc)@ == old(acc)@ + b@,
{
    let ghost orig: Seq<u8> = acc@;
    let mut i: usize = 0;
    proof {
        assert(acc@ =~= orig + b@.subrange(0, 0));
    }
    while i < b.len()
        invariant
            i <= b@.len(),
            acc@ == orig + b@.subrange(0, i as int),
        decreases b@.len() - i,
    {
        acc.push(b[i]);
        proof {
            assert(acc@ =~= orig + b@.subrange(0, i + 1));
        }
        i += 1;
    }
    proof {
        assert(b@.subrange(0, b@.len() as int) =~= b@);
    }
}

/// Decimal representations never get shorter as the number grows.
proof fn lemma_dec_len_monotone(a: nat, b: nat)
    requires
        a <= b,
    ensures
        spec_dec_digits(a).len() <= spec_dec_digits(b).len(),
    decreases b,
{
    if b >= 10 && a >= 10 {
        vstd::arithmetic::div_mod::lemma_div_is_ordered(a as int, b as int, 10);
        lemma_dec_len_monotone(a / 10, b / 10);
    }
}

/// Law (content sensitivity, at the framing level): two objects of one kind
/// with different bytes contribute different frames to the digest stream —
/// the framing neither collapses differing contents nor lets a length
/// change masquerade as a content change.
pub proof fn lemma_frame_content_sensitive(k: ObjKind, b1: Seq<u8>, b2: Seq<u8>)
    requires
        b1 != b2,
    ensures
        spec_frame(k, b1) != spec_frame(k, b2),
{
    let f1 = spec_frame(k, b1);
    let f2 = spec_frame(k, b2);
    if b1.len() == b2.len() {
        let pre = spec_kind_name(k).len() + 1 + spec_dec_digits(b1.len()).len() + 1;
        assert(f1.len() == pre + b1.len());
        assert(f2.len() == pre + b2.len());
        if f1 == f2 {
            assert(b1 =~= b2) by {
                assert forall|i: int| 0 <= i < b1.len() implies b1[i] == b2[i] by {
                    assert(f1[pre + i] == b1[i]);
                    assert(f2[pre + i] == b2[i]);
                }
            }
        }
    } else {
        if b1.len() < b2.len() {
            lemma_dec_len_monotone(b1.len(), b2.len());
        } else {
            lemma_dec_len_monotone(b2.len(), b1.len());
        }
        assert(f1.len() != f2.len());
    }
}

/// Append the frame of one object to the running stream.
pub fn push_frame(acc: &mut Vec<u8>, k: ObjKind, bytes: &[u8])
    ensures
        final(acc)@ == old(acc)@ + spec_frame(k, bytes@),
{
    let name = kind_name(k);
    push_bytes(acc, name.as_slice());
    acc.push(32);
    let len_digits = dec_digits(bytes.len());
    push_bytes(acc, len_digits.as_slice());
    acc.push(0);
    push_bytes(acc, bytes);
    proof {
        assert(acc@ =~= old(acc)@ + spec_frame(k, bytes@));
    }
}

} // verus!
