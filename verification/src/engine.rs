//! The checksum engine: a depth-first, pre-order walk of a commit's object
//! graph that frames every visited object into one byte stream, then digests
//! that stream.
//!
//! The walk is strictly sequential: the order of bytes in the stream is the
//! entire meaning of the digest. A commit contributes its own frame and then
//! its root tree; a tree contributes its own frame and then its entries in
//! the store's canonical order; a blob entry contributes the blob's frame; a
//! tree entry recurses; a sub-project entry folds the linked commit's whole
//! stream into the same accumulator; a tag entry contributes nothing. The
//! recursion carries a fuel bound as a guard against a graph that nests
//! beyond any sane depth, such as one a misconfigured sub-project link turns
//! cyclic.

use vstd::prelude::*;
use vstd::slice::slice_to_vec;

use crate::digest::{sha512, sha512_of};
use crate::errors::{engine_failure, err_kind, ErrKind, EvTagError};
use crate::frame::{push_frame, spec_frame};
use crate::kind::ObjKind;
use crate::store::{
    distinct_oids, find_obj, find_sub, lemma_lookup_obj_update, lookup_obj, lookup_sub, SEntry,
    Store,
};

verus! {

/// How many nested recursion steps the engine allows before it treats the
/// graph as malformed.
pub const DEFAULT_FUEL: u64 = 4096;

/// The stream a commit contributes: its own frame, then its root tree's
/// stream. The commit's parents and metadata travel inside its own bytes and
/// are not walked separately.
pub open spec fn spec_commit_stream(s: Store, oid: Seq<u8>, fuel: nat) -> Result<Seq<u8>, ErrKind>
    decreases fuel, 3nat, 0nat,
{
    match lookup_obj(s.objects@, oid) {
        None => Err(ErrKind::ObjectLookup),
        Some(o) => if o.kind != ObjKind::Commit {
            Err(ErrKind::ObjectLookup)
        } else {
            match spec_tree_stream(s, o.tree@, fuel) {
                Err(e) => Err(e),
                Ok(t) => Ok(spec_frame(ObjKind::Commit, o.bytes@) + t),
            }
        },
    }
}

/// The stream a tree contributes: its own frame, then its entries' streams
/// in the store's canonical order.
pub open spec fn spec_tree_stream(s: Store, oid: Seq<u8>, fuel: nat) -> Result<Seq<u8>, ErrKind>
    decreases fuel, 2nat, 0nat,
{
    match lookup_obj(s.objects@, oid) {
        None => Err(ErrKind::ObjectLookup),
        Some(o) => if o.kind != ObjKind::Tree {
            Err(ErrKind::ObjectLookup)
        } else {
            match spec_entries_stream(s, o.entries@, fuel) {
                Err(e) => Err(e),
                Ok(t) => Ok(spec_frame(ObjKind::Tree, o.bytes@) + t),
            }
        },
    }
}

/// The concatenated streams of a list of tree entries, in order.
pub open spec fn spec_entries_stream(s: Store, entries: Seq<SEntry>, fuel: nat) -> Result<
    Seq<u8>,
    ErrKind,
>
    decreases fuel, 1nat, entries.len(),
{
    if entries.len() == 0 {
        Ok(Seq::empty())
    } else {
        match spec_entry_stream(s, entries[0], fuel) {
            Err(e) => Err(e),
            Ok(h) => match spec_entries_stream(s, entries.drop_first(), fuel) {
                Err(e) => Err(e),
                Ok(t) => Ok(h + t),
            },
        }
    }
}

/// The stream one tree entry contributes, dispatched on the kind the tree
/// records for it.
pub open spec fn spec_entry_stream(s: Store, e: SEntry, fuel: nat) -> Result<Seq<u8>, ErrKind>
    decreases fuel, 0nat, 0nat,
{
    match e.kind {
        None => Err(ErrKind::MalformedGraph),
        Some(ObjKind::Tag) => Ok(Seq::empty()),
        Some(ObjKind::Blob) => match lookup_obj(s.objects@, e.oid@) {
            None => Err(ErrKind::ObjectLookup),
            Some(o) => if o.kind != ObjKind::Blob {
                Err(ErrKind::ObjectLookup)
            } else {
                Ok(spec_frame(ObjKind::Blob, o.bytes@))
            },
        },
        Some(ObjKind::Tree) => if fuel == 0 {
            Err(ErrKind::MalformedGraph)
        } else {
            spec_tree_stream(s, e.oid@, (fuel - 1) as nat)
        },
        Some(ObjKind::Commit) => match lookup_sub(s.subprojects@, e.name@) {
            None => Err(ErrKind::ObjectLookup),
            Some(l) => match l.head {
                None => Err(ErrKind::DetachedSubproject),
                Some(h) => if fuel == 0 {
                    Err(ErrKind::MalformedGraph)
                } else {
                    spec_commit_stream(s, h@, (fuel - 1) as nat)
                },
            },
        },
    }
}

/// The digest of a commit's full transitive content: SHA-512 over the
/// commit's stream.
pub open spec fn spec_compute(s: Store, oid: Seq<u8>) -> Result<Seq<u8>, ErrKind> {
    match spec_commit_stream(s, oid, DEFAULT_FUEL as nat) {
        Err(e) => Err(e),
        Ok(st) => Ok(sha512_of(st)),
    }
}

/// Append a commit's stream to `acc`.
fn stream_commit(s: &Store, oid: &[u8], fuel: u64, acc: &mut Vec<u8>) -> (r: Result<
    (),
    EvTagError,
>)
    ensures
        r is Ok ==> spec_commit_stream(*s, oid@, fuel as nat) is Ok && final(acc)@ == old(acc)@
            + spec_commit_stream(*s, oid@, fuel as nat)->Ok_0,
        r is Err ==> spec_commit_stream(*s, oid@, fuel as nat) is Err && err_kind(r->Err_0)
            == spec_commit_stream(*s, oid@, fuel as nat)->Err_0,
        r is Err ==> engine_failure(r->Err_0),
    decreases fuel, 3nat, 0nat,
{
    let o = match find_obj(&s.objects, oid) {
        None => {
            return Err(EvTagError::ObjectLookup { oid: slice_to_vec(oid) });
        },
        Some(o) => o,
    };
    if o.kind != ObjKind::Commit {
        return Err(EvTagError::ObjectLookup { oid: slice_to_vec(oid) });
    }
    push_frame(acc, ObjKind::Commit, o.bytes.as_slice());
    match stream_tree(s, o.tree.as_slice(), fuel, acc) {
        Err(e) => Err(e),
        Ok(()) => {
            proof {
                let st = spec_commit_stream(*s, oid@, fuel as nat)->Ok_0;
                assert(acc@ =~= old(acc)@ + st);
            }
            Ok(())
        },
    }
}

/// Append a tree's stream to `acc`.
fn stream_tree(s: &Store, oid: &[u8], fuel: u64, acc: &mut Vec<u8>) -> (r: Result<(), EvTagError>)
    ensures
        r is Ok ==> spec_tree_stream(*s, oid@, fuel as nat) is Ok && final(acc)@ == old(acc)@
            + spec_tree_stream(*s, oid@, fuel as nat)->Ok_0,
        r is Err ==> spec_tree_stream(*s, oid@, fuel as nat) is Err && err_kind(r->Err_0)
            == spec_tree_stream(*s, oid@, fuel as nat)->Err_0,
        r is Err ==> engine_failure(r->Err_0),
    decreases fuel, 2nat, 0nat,
{
    let o = match find_obj(&s.objects, oid) {
        None => {
            return Err(EvTagError::ObjectLookup { oid: slice_to_vec(oid) });
        },
        Some(o) => o,
    };
    if o.kind != ObjKind::Tree {
        return Err(EvTagError::ObjectLookup { oid: slice_to_vec(oid) });
    }
    push_frame(acc, ObjKind::Tree, o.bytes.as_slice());
    proof {
        assert(o.entries@.skip(0) =~= o.entries@);
    }
    match stream_entries(s, &o.entries, 0, fuel, acc) {
        Err(e) => Err(e),
        Ok(()) => {
            proof {
                let st = spec_tree_stream(*s, oid@, fuel as nat)->Ok_0;
                assert(acc@ =~= old(acc)@ + st);
            }
            Ok(())
        },
    }
}

/// Append the streams of `entries[idx..]` to `acc`.
fn stream_entries(s: &Store, entries: &Vec<SEntry>, idx: usize, fuel: u64, acc: &mut Vec<u8>) -> (r:
    Result<(), EvTagError>)
    requires
        idx <= entries@.len(),
    ensures
        r is Ok ==> spec_entries_stream(*s, entries@.skip(idx as int), fuel as nat) is Ok
            && final(acc)@ == old(acc)@ + spec_entries_stream(
            *s,
            entries@.skip(idx as int),
            fuel as nat,
        )->Ok_0,
        r is Err ==> spec_entries_stream(*s, entries@.skip(idx as int), fuel as nat) is Err
            && err_kind(r->Err_0) == spec_entries_stream(
            *s,
            entries@.skip(idx as int),
            fuel as nat,
        )->Err_0,
        r is Err ==> engine_failure(r->Err_0),
    decreases fuel, 1nat, entries@.len() - idx,
{
    if idx == entries.len() {
        proof {
            assert(entries@.skip(idx as int) =~= Seq::<SEntry>::empty());
            assert(acc@ =~= old(acc)@ + Seq::<u8>::empty());
        }
        return Ok(());
    }
    proof {
        assert(entries@.skip(idx as int)[0] == entries@[idx as int]);
        assert(entries@.skip(idx as int).drop_first() =~= entries@.skip(idx as int + 1));
    }
    match stream_entry(s, &entries[idx], fuel, acc) {
        Err(e) => Err(e),
        Ok(()) => match stream_entries(s, entries, idx + 1, fuel, acc) {
            Err(e) => Err(e),
            Ok(()) => {
                proof {
                    let st = spec_entries_stream(*s, entries@.skip(idx as int), fuel as nat)->Ok_0;
                    assert(acc@ =~= old(acc)@ + st);
                }
                Ok(())
            },
        },
    }
}

/// Append one entry's stream to `acc`.
fn stream_entry(s: &Store, e: &SEntry, fuel: u64, acc: &mut Vec<u8>) -> (r: Result<(), EvTagError>)
    ensures
        r is Ok ==> spec_entry_stream(*s, *e, fuel as nat) is Ok && final(acc)@ == old(acc)@
            + spec_entry_stream(*s, *e, fuel as nat)->Ok_0,
        r is Err ==> spec_entry_stream(*s, *e, fuel as nat) is Err && err_kind(r->Err_0)
            == spec_entry_stream(*s, *e, fuel as nat)->Err_0,
        r is Err ==> engine_failure(r->Err_0),
    decreases fuel, 0nat, 0nat,
{
    match &e.kind {
        None => Err(EvTagError::MalformedGraph),
        Some(ObjKind::Tag) => {
            proof {
                assert(acc@ =~= old(acc)@ + Seq::<u8>::empty());
            }
            Ok(())
        },
        Some(ObjKind::Blob) => {
            let o = match find_obj(&s.objects, e.oid.as_slice()) {
                None => {
                    return Err(EvTagError::ObjectLookup { oid: slice_to_vec(e.oid.as_slice()) });
                },
                Some(o) => o,
            };
            if o.kind != ObjKind::Blob {
                return Err(EvTagError::ObjectLookup { oid: slice_to_vec(e.oid.as_slice()) });
            }
            push_frame(acc, ObjKind::Blob, o.bytes.as_slice());
            Ok(())
        },
        Some(ObjKind::Tree) => {
            if fuel == 0 {
                return Err(EvTagError::MalformedGraph);
            }
            stream_tree(s, e.oid.as_slice(), fuel - 1, acc)
        },
        Some(ObjKind::Commit) => {
            let l = match find_sub(&s.subprojects, e.name.as_slice()) {
                None => {
                    return Err(EvTagError::ObjectLookup { oid: slice_to_vec(e.oid.as_slice()) });
                },
                Some(l) => l,
            };
            match &l.head {
                None => Err(
                    EvTagError::DetachedSubproject { name: slice_to_vec(e.name.as_slice()) },
                ),
                Some(h) => {
                    if fuel == 0 {
                        return Err(EvTagError::MalformedGraph);
                    }
                    stream_commit(s, h.as_slice(), fuel - 1, acc)
                },
            }
        },
    }
}

/// Compute the digest of the commit named `oid` over its full transitive
/// content in `s`: every blob, nested tree and linked sub-project revision,
/// folded into one SHA-512 over the framed byte stream.
pub fn compute(s: &Store, oid: &[u8]) -> (r: Result<Vec<u8>, EvTagError>)
    ensures
        r is Ok ==> spec_compute(*s, oid@) is Ok && r->Ok_0@ == spec_compute(*s, oid@)->Ok_0
            && r->Ok_0@.len() == 64,
        r is Err ==> spec_compute(*s, oid@) is Err && err_kind(r->Err_0) == spec_compute(
            *s,
            oid@,
        )->Err_0,
        r is Err ==> engine_failure(r->Err_0),
{
    let mut acc: Vec<u8> = Vec::new();
    match stream_commit(s, oid, DEFAULT_FUEL, &mut acc) {
        Err(e) => Err(e),
        Ok(()) => {
            proof {
                let st = spec_commit_stream(*s, oid@, DEFAULT_FUEL as nat)->Ok_0;
                assert(acc@ =~= st);
            }
            Ok(sha512(acc.as_slice()))
        },
    }
}

/// Law: the digest is deterministic. Two digests that both satisfy the
/// engine's contract for the same store and root commit are equal.
pub proof fn lemma_compute_deterministic(s: Store, oid: Seq<u8>, d1: Seq<u8>, d2: Seq<u8>)
    requires
        spec_compute(s, oid) == Ok::<Seq<u8>, ErrKind>(d1),
        spec_compute(s, oid) == Ok::<Seq<u8>, ErrKind>(d2),
    ensures
        d1 == d2,
{
}

/// Law: a Tag-kind entry contributes nothing. Inserting a Tag-kind entry
/// anywhere in a tree's entry list — or, read right to left, removing one —
/// leaves the list's stream unchanged, and with it the digest.
pub proof fn lemma_tag_entry_skip(s: Store, entries: Seq<SEntry>, i: int, e: SEntry, fuel: nat)
    requires
        0 <= i <= entries.len(),
        e.kind == Some(ObjKind::Tag),
    ensures
        spec_entries_stream(s, entries.insert(i, e), fuel) == spec_entries_stream(
            s,
            entries,
            fuel,
        ),
    decreases i,
{
    let ins = entries.insert(i, e);
    if i == 0 {
        assert(ins.len() == entries.len() + 1);
        assert(ins[0] == e);
        assert(ins.drop_first() =~= entries);
        assert(spec_entry_stream(s, e, fuel) == Ok::<Seq<u8>, ErrKind>(Seq::empty()));
        if spec_entries_stream(s, entries, fuel) is Ok {
            let t = spec_entries_stream(s, entries, fuel)->Ok_0;
            assert(spec_entries_stream(s, ins, fuel) == Ok::<Seq<u8>, ErrKind>(
                Seq::<u8>::empty() + t,
            ));
            assert(Seq::<u8>::empty() + t =~= t);
        } else {
            assert(spec_entries_stream(s, ins, fuel) == spec_entries_stream(s, entries, fuel));
        }
    } else {
        assert(ins[0] == entries[0]);
        assert(ins.drop_first() =~= entries.drop_first().insert(i - 1, e));
        lemma_tag_entry_skip(s, entries.drop_first(), i - 1, e, fuel);
    }
}

/// Law (canonical order): the stream of a concatenated entry list is the
/// concatenation of the two halves' streams, in that order and no other —
/// the engine never reorders or normalizes entry contributions, so a digest
/// derived in any order but the store's canonical one is a different digest.
pub proof fn lemma_entries_stream_append(
    s: Store,
    es1: Seq<SEntry>,
    es2: Seq<SEntry>,
    t1: Seq<u8>,
    t2: Seq<u8>,
    fuel: nat,
)
    requires
        spec_entries_stream(s, es1, fuel) == Ok::<Seq<u8>, ErrKind>(t1),
        spec_entries_stream(s, es2, fuel) == Ok::<Seq<u8>, ErrKind>(t2),
    ensures
        spec_entries_stream(s, es1 + es2, fuel) == Ok::<Seq<u8>, ErrKind>(t1 + t2),
    decreases es1.len(),
{
    if es1.len() == 0 {
        assert(es1 + es2 =~= es2);
        assert(t1 + t2 =~= t2);
    } else {
        let h = spec_entry_stream(s, es1[0], fuel)->Ok_0;
        let t1r = spec_entries_stream(s, es1.drop_first(), fuel)->Ok_0;
        assert((es1 + es2)[0] == es1[0]);
        assert((es1 + es2).drop_first() =~= es1.drop_first() + es2);
        lemma_entries_stream_append(s, es1.drop_first(), es2, t1r, t2, fuel);
        assert(h + (t1r + t2) =~= (h + t1r) + t2);
    }
}

/// How two stores may differ by one Tag-kind entry: `s2` is `s1` with the
/// object at index `j` replaced by a copy whose entry list has the Tag-kind
/// entry `e` inserted at position `p`, everything else — the object's
/// identifier, kind, bytes and tree, every other object, and the
/// sub-project table — unchanged. The identifiers of `s1` are pairwise
/// distinct, as content addressing makes them.
pub open spec fn stores_differ_by_tag_entry(
    s1: Store,
    s2: Store,
    j: int,
    p: int,
    e: SEntry,
) -> bool {
    &&& 0 <= j < s1.objects@.len()
    &&& s2.objects@.len() == s1.objects@.len()
    &&& forall|i: int|
        0 <= i < s1.objects@.len() && i != j ==> s2.objects@[i] == s1.objects@[i]
    &&& s2.objects@[j].oid@ == s1.objects@[j].oid@
    &&& s2.objects@[j].kind == s1.objects@[j].kind
    &&& s2.objects@[j].bytes@ == s1.objects@[j].bytes@
    &&& s2.objects@[j].tree@ == s1.objects@[j].tree@
    &&& 0 <= p <= s1.objects@[j].entries@.len()
    &&& e.kind == Some(ObjKind::Tag)
    &&& s2.objects@[j].entries@ == s1.objects@[j].entries@.insert(p, e)
    &&& s2.subprojects@ == s1.subprojects@
    &&& distinct_oids(s1.objects@)
}

proof fn lemma_skip_store_commit(
    s1: Store,
    s2: Store,
    j: int,
    p: int,
    e: SEntry,
    oid: Seq<u8>,
    fuel: nat,
)
    requires
        stores_differ_by_tag_entry(s1, s2, j, p, e),
    ensures
        spec_commit_stream(s2, oid, fuel) == spec_commit_stream(s1, oid, fuel),
    decreases fuel, 3nat, 0nat,
{
    lemma_lookup_obj_update(s1.objects@, s2.objects@, j, oid);
    if lookup_obj(s1.objects@, oid) is Some {
        let o1 = lookup_obj(s1.objects@, oid)->Some_0;
        if o1.kind == ObjKind::Commit {
            lemma_skip_store_tree(s1, s2, j, p, e, o1.tree@, fuel);
        }
    }
}

proof fn lemma_skip_store_tree(
    s1: Store,
    s2: Store,
    j: int,
    p: int,
    e: SEntry,
    oid: Seq<u8>,
    fuel: nat,
)
    requires
        stores_differ_by_tag_entry(s1, s2, j, p, e),
    ensures
        spec_tree_stream(s2, oid, fuel) == spec_tree_stream(s1, oid, fuel),
    decreases fuel, 2nat, 0nat,
{
    lemma_lookup_obj_update(s1.objects@, s2.objects@, j, oid);
    if lookup_obj(s1.objects@, oid) is Some {
        let o1 = lookup_obj(s1.objects@, oid)->Some_0;
        if o1.kind == ObjKind::Tree {
            if oid == s1.objects@[j].oid@ {
                lemma_tag_entry_skip(s2, s1.objects@[j].entries@, p, e, fuel);
                lemma_skip_store_entries(s1, s2, j, p, e, s1.objects@[j].entries@, fuel);
            } else {
                lemma_skip_store_entries(s1, s2, j, p, e, o1.entries@, fuel);
            }
        }
    }
}

proof fn lemma_skip_store_entries(
    s1: Store,
    s2: Store,
    j: int,
    p: int,
    e: SEntry,
    entries: Seq<SEntry>,
    fuel: nat,
)
    requires
        stores_differ_by_tag_entry(s1, s2, j, p, e),
    ensures
        spec_entries_stream(s2, entries, fuel) == spec_entries_stream(s1, entries, fuel),
    decreases fuel, 1nat, entries.len(),
{
    if entries.len() > 0 {
        lemma_skip_store_entry(s1, s2, j, p, e, entries[0], fuel);
        lemma_skip_store_entries(s1, s2, j, p, e, entries.drop_first(), fuel);
    }
}

proof fn lemma_skip_store_entry(
    s1: Store,
    s2: Store,
    j: int,
    p: int,
    e: SEntry,
    ent: SEntry,
    fuel: nat,
)
    requires
        stores_differ_by_tag_entry(s1, s2, j, p, e),
    ensures
        spec_entry_stream(s2, ent, fuel) == spec_entry_stream(s1, ent, fuel),
    decreases fuel, 0nat, 0nat,
{
    match ent.kind {
        Some(ObjKind::Blob) => {
            lemma_lookup_obj_update(s1.objects@, s2.objects@, j, ent.oid@);
        },
        Some(ObjKind::Tree) => {
            if fuel > 0 {
                lemma_skip_store_tree(s1, s2, j, p, e, ent.oid@, (fuel - 1) as nat);
            }
        },
        Some(ObjKind::Commit) => {
            if lookup_sub(s1.subprojects@, ent.name@) is Some {
                let l = lookup_sub(s1.subprojects@, ent.name@)->Some_0;
                if l.head is Some && fuel > 0 {
                    lemma_skip_store_commit(s1, s2, j, p, e, l.head->Some_0@, (fuel - 1) as nat);
                }
            }
        },
        _ => {},
    }
}

/// Law (tag-link skip, at the digest level): adding a Tag-kind entry to a
/// tree inside a store — or, read right to left, removing one — leaves the
/// digest of every commit unchanged.
pub proof fn lemma_tag_entry_skip_digest(
    s1: Store,
    s2: Store,
    j: int,
    p: int,
    e: SEntry,
    oid: Seq<u8>,
)
    requires
        stores_differ_by_tag_entry(s1, s2, j, p, e),
    ensures
        spec_compute(s2, oid) == spec_compute(s1, oid),
{
    lemma_skip_store_commit(s1, s2, j, p, e, oid, DEFAULT_FUEL as nat);
}

} // verus!
