//! Finding the embedded checksum line in a tag message.
//!
//! The message is scanned line by line; the first line beginning with the
//! fixed literal prefix `Git-EVTag-v0-SHA512:` is authoritative, and the rest
//! of that line, trimmed of surrounding whitespace, is the embedded checksum.
//! The version token in the prefix pins the hashing and framing convention:
//! a future algorithm change must change the prefix rather than silently
//! compare unlike digests.

use vstd::prelude::*;
use vstd::slice::{slice_subrange, slice_to_vec};

use crate::digest::{hex_of, lower_hex, lower_hex_bytes};
use crate::errors::EvTagError;
use crate::store::bytes_eq;

verus! {

/// The checksum line's fixed prefix, `Git-EVTag-v0-SHA512:` as bytes.
pub open spec fn spec_prefix() -> Seq<u8> {
    seq![
        71u8,
        105u8,
        116u8,
        45u8,
        69u8,
        86u8,
        84u8,
        97u8,
        103u8,
        45u8,
        118u8,
        48u8,
        45u8,
        83u8,
        72u8,
        65u8,
        53u8,
        49u8,
        50u8,
        58u8,
    ]
}

/// The checksum line's fixed prefix as bytes.
pub fn prefix() -> (v: Vec<u8>)
    ensures
        v@ == spec_prefix(),
{
    let mut v: Vec<u8> = Vec::new();
    v.push(71);
    v.push(105);
    v.push(116);
    v.push(45);
    v.push(69);
    v.push(86);
    v.push(84);
    v.push(97);
    v.push(103);
    v.push(45);
    v.push(118);
    v.push(48);
    v.push(45);
    v.push(83);
    v.push(72);
    v.push(65);
    v.push(53);
    v.push(49);
    v.push(50);
    v.push(58);
    proof {
        assert(v@ =~= spec_prefix());
    }
    v
}

/// The lines of `m` from position `i` on, the current line having started at
/// `cur`: lines are separated by a newline byte, and a trailing newline does
/// not open a final empty line.
pub open spec fn lines_from(m: Seq<u8>, i: int, cur: int) -> Seq<Seq<u8>>
    recommends
        0 <= cur <= i <= m.len(),
    decreases m.len() - i,
{
    if i >= m.len() {
        if cur < m.len() {
            seq![m.subrange(cur, m.len() as int)]
        } else {
            Seq::empty()
        }
    } else if m[i] == 10 {
        seq![m.subrange(cur, i)] + lines_from(m, i + 1, i + 1)
    } else {
        lines_from(m, i + 1, cur)
    }
}

/// The lines of a message.
pub open spec fn spec_lines(m: Seq<u8>) -> Seq<Seq<u8>> {
    lines_from(m, 0, 0)
}

/// Whether a line begins with the checksum prefix.
pub open spec fn starts_with_prefix(l: Seq<u8>) -> bool {
    l.len() >= spec_prefix().len() && l.subrange(0, spec_prefix().len() as int) == spec_prefix()
}

/// Whether a byte is whitespace: space, tab, or one of the line-break bytes.
pub open spec fn is_ws(b: u8) -> bool {
    b == 32 || b == 9 || b == 10 || b == 11 || b == 12 || b == 13
}

/// `l` with leading whitespace removed.
pub open spec fn trim_front(l: Seq<u8>) -> Seq<u8>
    decreases l.len(),
{
    if l.len() > 0 && is_ws(l[0]) {
        trim_front(l.drop_first())
    } else {
        l
    }
}

/// `l` with trailing whitespace removed.
pub open spec fn trim_back(l: Seq<u8>) -> Seq<u8>
    decreases l.len(),
{
    if l.len() > 0 && is_ws(l[l.len() - 1]) {
        trim_back(l.drop_last())
    } else {
        l
    }
}

/// `l` with surrounding whitespace removed.
pub open spec fn spec_trim(l: Seq<u8>) -> Seq<u8> {
    trim_back(trim_front(l))
}

/// The first line beginning with the checksum prefix, if any.
pub open spec fn find_line(lines: Seq<Seq<u8>>) -> Option<Seq<u8>>
    decreases lines.len(),
{
    if lines.len() == 0 {
        None
    } else if starts_with_prefix(lines[0]) {
        Some(lines[0])
    } else {
        find_line(lines.drop_first())
    }
}

/// The checksum embedded in a message: the first prefixed line's remainder,
/// trimmed of surrounding whitespace — or nothing, when no line matches.
pub open spec fn spec_find_checksum(m: Seq<u8>) -> Option<Seq<u8>> {
    match find_line(spec_lines(m)) {
        None => None,
        Some(l) => Some(spec_trim(l.skip(spec_prefix().len() as int))),
    }
}

proof fn lemma_find_line_step(l: Seq<u8>, rest: Seq<Seq<u8>>)
    ensures
        find_line(seq![l] + rest) == if starts_with_prefix(l) {
            Some(l)
        } else {
            find_line(rest)
        },
{
    let s = seq![l] + rest;
    assert(s[0] == l);
    assert(s.drop_first() =~= rest);
}

/// Whether the line `msg[cur..i]` begins with the checksum prefix.
fn has_prefix_at(msg: &[u8], cur: usize, i: usize) -> (r: bool)
    requires
        cur <= i <= msg@.len(),
    ensures
        r == starts_with_prefix(msg@.subrange(cur as int, i as int)),
{
    let p = prefix();
    let ghost line = msg@.subrange(cur as int, i as int);
    if i - cur < p.len() {
        return false;
    }
    let mut j: usize = 0;
    while j < p.len()
        invariant
            cur <= i <= msg@.len(),
            p@ == spec_prefix(),
            j <= p@.len(),
            p@.len() <= i - cur,
            line == msg@.subrange(cur as int, i as int),
            forall|k: int| 0 <= k < j ==> msg@[cur + k] == spec_prefix()[k],
        decreases p@.len() - j,
    {
        if msg[cur + j] != p[j] {
            proof {
                assert(line.subrange(0, spec_prefix().len() as int)[j as int] == msg@[cur + j]);
            }
            return false;
        }
        j += 1;
    }
    proof {
        assert(line.subrange(0, spec_prefix().len() as int) =~= spec_prefix());
    }
    true
}

/// Whether a byte is whitespace.
fn is_ws_byte(b: u8) -> (r: bool)
    ensures
        r == is_ws(b),
{
    b == 32 || b == 9 || b == 10 || b == 11 || b == 12 || b == 13
}

/// `msg[lo0..hi0]` with surrounding whitespace removed.
fn trimmed_range(msg: &[u8], lo0: usize, hi0: usize) -> (v: Vec<u8>)
    requires
        lo0 <= hi0 <= msg@.len(),
    ensures
        v@ == spec_trim(msg@.subrange(lo0 as int, hi0 as int)),
{
    let mut lo: usize = lo0;
    while lo < hi0 && is_ws_byte(msg[lo])
        invariant
            lo0 <= lo <= hi0 <= msg@.len(),
            trim_front(msg@.subrange(lo0 as int, hi0 as int)) == trim_front(
                msg@.subrange(lo as int, hi0 as int),
            ),
        decreases hi0 - lo,
    {
        proof {
            assert(msg@.subrange(lo as int, hi0 as int).drop_first() =~= msg@.subrange(
                lo as int + 1,
                hi0 as int,
            ));
        }
        lo += 1;
    }
    proof {
        assert(trim_front(msg@.subrange(lo as int, hi0 as int)) == msg@.subrange(
            lo as int,
            hi0 as int,
        ));
    }
    let mut hi: usize = hi0;
    while hi > lo && is_ws_byte(msg[hi - 1])
        invariant
            lo <= hi <= hi0 <= msg@.len(),
            trim_back(msg@.subrange(lo as int, hi0 as int)) == trim_back(
                msg@.subrange(lo as int, hi as int),
            ),
        decreases hi - lo,
    {
        proof {
            assert(msg@.subrange(lo as int, hi as int).drop_last() =~= msg@.subrange(
                lo as int,
                hi as int - 1,
            ));
        }
        hi -= 1;
    }
    proof {
        assert(trim_back(msg@.subrange(lo as int, hi as int)) == msg@.subrange(
            lo as int,
            hi as int,
        ));
    }
    slice_to_vec(slice_subrange(msg, lo, hi))
}

/// Find the embedded checksum in a tag message: scan line by line for the
/// first line beginning with the checksum prefix, and hand back the rest of
/// that line trimmed of surrounding whitespace.
pub fn find_checksum(msg: &[u8]) -> (r: Option<Vec<u8>>)
    ensures
        match r {
            Some(v) => spec_find_checksum(msg@) == Some(v@),
            None => spec_find_checksum(msg@) is None,
        },
{
    let mut cur: usize = 0;
    let mut i: usize = 0;
    while i < msg.len()
        invariant
            cur <= i <= msg@.len(),
            forall|j: int| cur <= j < i ==> msg@[j] != 10,
            find_line(spec_lines(msg@)) == find_line(lines_from(msg@, i as int, cur as int)),
        decreases msg@.len() - i,
    {
        if msg[i] == 10 {
            let ghost line = msg@.subrange(cur as int, i as int);
            proof {
                assert(lines_from(msg@, i as int, cur as int) == seq![line] + lines_from(
                    msg@,
                    i as int + 1,
                    i as int + 1,
                ));
                lemma_find_line_step(line, lines_from(msg@, i as int + 1, i as int + 1));
            }
            if has_prefix_at(msg, cur, i) {
                proof {
                    assert(line.skip(spec_prefix().len() as int) =~= msg@.subrange(
                        cur as int + 20,
                        i as int,
                    ));
                }
                let v = trimmed_range(msg, cur + 20, i);
                return Some(v);
            }
            i += 1;
            cur = i;
        } else {
            i += 1;
        }
    }
    if cur < msg.len() {
        let ghost line = msg@.subrange(cur as int, msg@.len() as int);
        proof {
            assert(lines_from(msg@, i as int, cur as int) == seq![line]);
            assert(seq![line] =~= seq![line] + Seq::<Seq<u8>>::empty());
            lemma_find_line_step(line, Seq::empty());
        }
        if has_prefix_at(msg, cur, msg.len()) {
            proof {
                assert(line.skip(spec_prefix().len() as int) =~= msg@.subrange(
                    cur as int + 20,
                    msg@.len() as int,
                ));
            }
            let v = trimmed_range(msg, cur + 20, msg.len());
            return Some(v);
        }
    }
    None
}

/// Check a tag message against a computed digest: find the embedded
/// checksum, normalize it to lowercase hex, and compare it — then
/// case-sensitively — with the digest's lowercase hex form. Succeeds with
/// the embedded checksum as found; fails when no checksum line exists or
/// the normalized value differs from the computed one.
pub fn check_message(message: &[u8], digest: &[u8]) -> (r: Result<Vec<u8>, EvTagError>)
    ensures
        r is Ok ==> spec_find_checksum(message@) == Some(r->Ok_0@) && lower_hex(r->Ok_0@) == hex_of(
            digest@,
        ),
        r is Err ==> match r->Err_0 {
            EvTagError::NoChecksumFound => spec_find_checksum(message@) is None,
            EvTagError::ChecksumMismatch { expected, found } => expected@ == hex_of(digest@)
                && spec_find_checksum(message@) == Some(found@) && lower_hex(found@) != hex_of(
                digest@,
            ),
            _ => false,
        },
{
    let expected = crate::digest::hex_encode(digest);
    match find_checksum(message) {
        None => Err(EvTagError::NoChecksumFound),
        Some(found) => {
            let normalized = lower_hex_bytes(found.as_slice());
            if bytes_eq(normalized.as_slice(), expected.as_slice()) {
                Ok(found)
            } else {
                Err(EvTagError::ChecksumMismatch { expected, found })
            }
        },
    }
}

} // verus!
