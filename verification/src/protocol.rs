//! The verification protocol over the model store: resolve a tag, compute
//! the digest of its target commit, and compare against the checksum line
//! embedded in the tag's message.
//!
//! The signature check of the full protocol invokes an external program and
//! so lives with the caller; everything here is the protocol's own logic.

use vstd::prelude::*;

use crate::digest::{hex_of, lower_hex};
use crate::engine::{compute, spec_compute};
use crate::errors::{err_kind, ErrKind, EvTagError};
use crate::message::{check_message, spec_find_checksum};
use crate::store::{find_tag_rec, lookup_tag, Store};

verus! {

/// What verifying the tag named `name` against store `s` yields: the
/// embedded checksum as found — its lowercase-hex normalization is the
/// computed digest's hex — and otherwise exactly which step failed: an
/// unknown name, a tag that is not annotated, a failure of the engine, a
/// message without a checksum line, or a mismatched checksum.
pub open spec fn spec_verify(s: Store, name: Seq<u8>) -> Result<Seq<u8>, ErrKind> {
    match lookup_tag(s.tags@, name) {
        None => Err(ErrKind::UnknownTag),
        Some(t) => if !t.annotated {
            Err(ErrKind::NotAnAnnotatedTag)
        } else {
            match spec_compute(s, t.target@) {
                Err(e) => Err(e),
                Ok(d) => match spec_find_checksum(t.message@) {
                    None => Err(ErrKind::NoChecksumFound),
                    Some(f) => if lower_hex(f) == hex_of(d) {
                        Ok(f)
                    } else {
                        Err(ErrKind::ChecksumMismatch)
                    },
                },
            }
        },
    }
}

/// Verify the tag named `name` against the store `s`, without a signature
/// check: resolve the tag, digest its target commit's full transitive
/// content, and compare against the checksum embedded in the tag message,
/// normalized to lowercase hex. Returns the matched checksum as embedded.
pub fn verify_store(s: &Store, name: &[u8]) -> (r: Result<Vec<u8>, EvTagError>)
    ensures
        r is Ok ==> spec_verify(*s, name@) == Ok::<Seq<u8>, ErrKind>(r->Ok_0@),
        r is Err ==> spec_verify(*s, name@) is Err && err_kind(r->Err_0) == spec_verify(
            *s,
            name@,
        )->Err_0,
        r is Err ==> match r->Err_0 {
            EvTagError::ChecksumMismatch { expected, found } => {
                let t = lookup_tag(s.tags@, name@)->Some_0;
                &&& expected@ == hex_of(spec_compute(*s, t.target@)->Ok_0)
                &&& spec_find_checksum(t.message@) == Some(found@)
                &&& lower_hex(found@) != expected@
            },
            _ => true,
        },
{
    let t = match find_tag_rec(&s.tags, name) {
        None => {
            return Err(EvTagError::UnknownTag);
        },
        Some(t) => t,
    };
    if !t.annotated {
        return Err(EvTagError::NotAnAnnotatedTag);
    }
    let d = match compute(s, t.target.as_slice()) {
        Err(e) => {
            return Err(e);
        },
        Ok(d) => d,
    };
    check_message(t.message.as_slice(), d.as_slice())
}

/// Law (round trip, success half): when the tag is annotated, the engine
/// succeeds on its target, and the message's embedded checksum — normalized
/// to lowercase hex — is exactly the computed digest's lowercase hex,
/// verification succeeds with the embedded checksum.
pub proof fn lemma_round_trip_ok(s: Store, name: Seq<u8>, f: Seq<u8>)
    requires
        lookup_tag(s.tags@, name) is Some,
        lookup_tag(s.tags@, name)->Some_0.annotated,
        spec_compute(s, lookup_tag(s.tags@, name)->Some_0.target@) is Ok,
        spec_find_checksum(lookup_tag(s.tags@, name)->Some_0.message@) == Some(f),
        lower_hex(f) == hex_of(spec_compute(s, lookup_tag(s.tags@, name)->Some_0.target@)->Ok_0),
    ensures
        spec_verify(s, name) == Ok::<Seq<u8>, ErrKind>(f),
{
}

/// Law (round trip, failure half): when the message's embedded checksum,
/// normalized to lowercase hex, is anything other than the computed
/// digest's lowercase hex — one mutated character is enough — verification
/// fails with a checksum mismatch.
pub proof fn lemma_round_trip_mismatch(s: Store, name: Seq<u8>, f: Seq<u8>)
    requires
        lookup_tag(s.tags@, name) is Some,
        lookup_tag(s.tags@, name)->Some_0.annotated,
        spec_compute(s, lookup_tag(s.tags@, name)->Some_0.target@) is Ok,
        spec_find_checksum(lookup_tag(s.tags@, name)->Some_0.message@) == Some(f),
        lower_hex(f) != hex_of(spec_compute(s, lookup_tag(s.tags@, name)->Some_0.target@)->Ok_0),
    ensures
        spec_verify(s, name) == Err::<Seq<u8>, ErrKind>(ErrKind::ChecksumMismatch),
{
}

/// Law (missing checksum line): when the tag resolves and the engine
/// succeeds but no line of the message carries the checksum prefix,
/// verification fails by reporting exactly that.
pub proof fn lemma_no_checksum_line(s: Store, name: Seq<u8>)
    requires
        lookup_tag(s.tags@, name) is Some,
        lookup_tag(s.tags@, name)->Some_0.annotated,
        spec_compute(s, lookup_tag(s.tags@, name)->Some_0.target@) is Ok,
        spec_find_checksum(lookup_tag(s.tags@, name)->Some_0.message@) is None,
    ensures
        spec_verify(s, name) == Err::<Seq<u8>, ErrKind>(ErrKind::NoChecksumFound),
{
}

/// Law (unknown tag): when no tag bears the given name, verification fails
/// with the unknown-tag error whatever the store's objects hold — the
/// failure is decided by the tag table alone, before anything is hashed.
pub proof fn lemma_unknown_tag(s: Store, name: Seq<u8>)
    requires
        lookup_tag(s.tags@, name) is None,
    ensures
        spec_verify(s, name) == Err::<Seq<u8>, ErrKind>(ErrKind::UnknownTag),
{
}

} // verus!
