//! The checksum engine over model stores: determinism, content and order
//! sensitivity, sub-project fold-in, tag-entry skipping, the failure cases,
//! and an exact framing cross-check against the hash primitive run directly.

use git_evtag::engine::compute;
use git_evtag::errors::EvTagError;
use git_evtag::kind::ObjKind;
use git_evtag::store::{SEntry, SObj, Store, SubLink, TagRec};

fn blob(oid: &[u8], bytes: &[u8]) -> SObj {
    SObj {
        oid: oid.to_vec(),
        kind: ObjKind::Blob,
        bytes: bytes.to_vec(),
        tree: Vec::new(),
        entries: Vec::new(),
    }
}

fn tree(oid: &[u8], bytes: &[u8], entries: Vec<SEntry>) -> SObj {
    SObj {
        oid: oid.to_vec(),
        kind: ObjKind::Tree,
        bytes: bytes.to_vec(),
        tree: Vec::new(),
        entries,
    }
}

fn commit(oid: &[u8], bytes: &[u8], tree: &[u8]) -> SObj {
    SObj {
        oid: oid.to_vec(),
        kind: ObjKind::Commit,
        bytes: bytes.to_vec(),
        tree: tree.to_vec(),
        entries: Vec::new(),
    }
}

fn entry(name: &[u8], kind: Option<ObjKind>, oid: &[u8]) -> SEntry {
    SEntry {
        name: name.to_vec(),
        kind,
        oid: oid.to_vec(),
    }
}

fn store(objects: Vec<SObj>) -> Store {
    Store {
        objects,
        subprojects: Vec::new(),
        tags: Vec::new(),
    }
}

fn frame(kind: &str, bytes: &[u8]) -> Vec<u8> {
    let mut v = Vec::new();
    v.extend_from_slice(kind.as_bytes());
    v.push(32);
    v.extend_from_slice(bytes.len().to_string().as_bytes());
    v.push(0);
    v.extend_from_slice(bytes);
    v
}

/// A store of one commit, one tree with a single blob entry.
fn simple_store() -> Store {
    store(vec![
        commit(b"c1", b"commit-one", b"t1"),
        tree(b"t1", b"tree-one", vec![entry(b"file", Some(ObjKind::Blob), b"b1")]),
        blob(b"b1", b"hello"),
    ])
}

#[test]
fn digest_matches_hash_of_framed_stream() {
    let s = simple_store();
    let got = compute(&s, b"c1").expect("digest");
    let mut stream = frame("commit", b"commit-one");
    stream.extend_from_slice(&frame("tree", b"tree-one"));
    stream.extend_from_slice(&frame("blob", b"hello"));
    let want = openssl::hash::hash(openssl::hash::MessageDigest::sha512(), &stream)
        .unwrap()
        .to_vec();
    assert_eq!(got, want);
    assert_eq!(got.len(), 64);
}

#[test]
fn digest_uses_multi_digit_decimal_lengths() {
    let body = [7u8; 123];
    let s = store(vec![
        commit(b"c1", b"commit-one", b"t1"),
        tree(b"t1", b"tree-one", vec![entry(b"big", Some(ObjKind::Blob), b"b1")]),
        blob(b"b1", &body),
    ]);
    let got = compute(&s, b"c1").expect("digest");
    let mut stream = frame("commit", b"commit-one");
    stream.extend_from_slice(&frame("tree", b"tree-one"));
    stream.extend_from_slice(&frame("blob", &body));
    let want = openssl::hash::hash(openssl::hash::MessageDigest::sha512(), &stream)
        .unwrap()
        .to_vec();
    assert_eq!(got, want);
}

#[test]
fn computing_twice_yields_identical_digest() {
    let s = simple_store();
    let d1 = compute(&s, b"c1").expect("first digest");
    let d2 = compute(&s, b"c1").expect("second digest");
    assert_eq!(d1, d2);
}

#[test]
fn changing_one_blob_byte_changes_digest() {
    let d1 = compute(&simple_store(), b"c1").expect("digest");
    let s2 = store(vec![
        commit(b"c1", b"commit-one", b"t1"),
        tree(b"t1", b"tree-one", vec![entry(b"file", Some(ObjKind::Blob), b"b1")]),
        blob(b"b1", b"hellp"),
    ]);
    let d2 = compute(&s2, b"c1").expect("digest");
    assert_ne!(d1, d2);
}

#[test]
fn changing_a_blob_behind_a_subproject_changes_digest() {
    let make = |payload: &[u8]| -> Store {
        let mut s = store(vec![
            commit(b"c1", b"commit-one", b"t1"),
            tree(
                b"t1",
                b"tree-one",
                vec![entry(b"vendored", Some(ObjKind::Commit), b"sub-c")],
            ),
            commit(b"sub-c", b"sub-commit", b"sub-t"),
            tree(
                b"sub-t",
                b"sub-tree",
                vec![entry(b"inner", Some(ObjKind::Blob), b"sub-b")],
            ),
            blob(b"sub-b", payload),
        ]);
        s.subprojects = vec![SubLink {
            name: b"vendored".to_vec(),
            head: Some(b"sub-c".to_vec()),
        }];
        s
    };
    let d1 = compute(&make(b"deep"), b"c1").expect("digest");
    let d2 = compute(&make(b"dEep"), b"c1").expect("digest");
    assert_ne!(d1, d2);
}

#[test]
fn shuffled_entry_order_changes_digest() {
    let with_order = |first: SEntry, second: SEntry| -> Store {
        store(vec![
            commit(b"c1", b"commit-one", b"t1"),
            tree(b"t1", b"tree-one", vec![first, second]),
            blob(b"a", b"alpha"),
            blob(b"z", b"omega"),
        ])
    };
    let ea = entry(b"a", Some(ObjKind::Blob), b"a");
    let ez = entry(b"z", Some(ObjKind::Blob), b"z");
    let d1 = compute(&with_order(ea, ez), b"c1").expect("digest");
    let ea = entry(b"a", Some(ObjKind::Blob), b"a");
    let ez = entry(b"z", Some(ObjKind::Blob), b"z");
    let d2 = compute(&with_order(ez, ea), b"c1").expect("digest");
    assert_ne!(d1, d2);
}

#[test]
fn subproject_revision_changes_digest() {
    let at_revision = |head: &[u8]| -> Store {
        let mut s = store(vec![
            commit(b"c1", b"commit-one", b"t1"),
            tree(
                b"t1",
                b"tree-one",
                vec![entry(b"vendored", Some(ObjKind::Commit), b"r1")],
            ),
            commit(b"r1", b"sub commit one", b"sub-t"),
            commit(b"r2", b"sub commit two", b"sub-t"),
            tree(b"sub-t", b"sub-tree", Vec::new()),
        ]);
        s.subprojects = vec![SubLink {
            name: b"vendored".to_vec(),
            head: Some(head.to_vec()),
        }];
        s
    };
    let d1 = compute(&at_revision(b"r1"), b"c1").expect("digest");
    let d2 = compute(&at_revision(b"r2"), b"c1").expect("digest");
    assert_ne!(d1, d2);
}

#[test]
fn tag_entries_contribute_nothing() {
    let d1 = compute(&simple_store(), b"c1").expect("digest");
    let with_tag_entry = store(vec![
        commit(b"c1", b"commit-one", b"t1"),
        tree(
            b"t1",
            b"tree-one",
            vec![
                entry(b"file", Some(ObjKind::Blob), b"b1"),
                entry(b"odd-tag", Some(ObjKind::Tag), b"whatever"),
            ],
        ),
        blob(b"b1", b"hello"),
    ]);
    let d2 = compute(&with_tag_entry, b"c1").expect("digest");
    assert_eq!(d1, d2);
}

#[test]
fn missing_object_is_a_lookup_failure() {
    let s = store(vec![commit(b"c1", b"commit-one", b"t1")]);
    let r = compute(&s, b"c1");
    match r {
        Err(EvTagError::ObjectLookup { oid }) => assert_eq!(oid, b"t1".to_vec()),
        other => panic!("expected an object-lookup failure, got {:?}", other),
    }
}

#[test]
fn missing_root_commit_is_a_lookup_failure() {
    let s = simple_store();
    let r = compute(&s, b"nowhere");
    match r {
        Err(EvTagError::ObjectLookup { oid }) => assert_eq!(oid, b"nowhere".to_vec()),
        other => panic!("expected an object-lookup failure, got {:?}", other),
    }
}

#[test]
fn wrong_kind_at_commit_position_is_a_lookup_failure() {
    let s = simple_store();
    let r = compute(&s, b"b1");
    assert!(matches!(r, Err(EvTagError::ObjectLookup { .. })));
}

#[test]
fn unknown_entry_kind_is_malformed() {
    let s = store(vec![
        commit(b"c1", b"commit-one", b"t1"),
        tree(b"t1", b"tree-one", vec![entry(b"odd", None, b"b1")]),
        blob(b"b1", b"hello"),
    ]);
    assert!(matches!(compute(&s, b"c1"), Err(EvTagError::MalformedGraph)));
}

#[test]
fn detached_subproject_is_reported() {
    let mut s = store(vec![
        commit(b"c1", b"commit-one", b"t1"),
        tree(
            b"t1",
            b"tree-one",
            vec![entry(b"vendored", Some(ObjKind::Commit), b"sub-c")],
        ),
    ]);
    s.subprojects = vec![SubLink {
        name: b"vendored".to_vec(),
        head: None,
    }];
    match compute(&s, b"c1") {
        Err(EvTagError::DetachedSubproject { name }) => assert_eq!(name, b"vendored".to_vec()),
        other => panic!("expected a detached sub-project failure, got {:?}", other),
    }
}

#[test]
fn unconfigured_subproject_is_a_lookup_failure() {
    let s = store(vec![
        commit(b"c1", b"commit-one", b"t1"),
        tree(
            b"t1",
            b"tree-one",
            vec![entry(b"vendored", Some(ObjKind::Commit), b"sub-c")],
        ),
    ]);
    assert!(matches!(compute(&s, b"c1"), Err(EvTagError::ObjectLookup { .. })));
}

#[test]
fn cyclic_graph_exhausts_the_recursion_guard() {
    // A tree that lists itself as a subtree: the depth guard must fail the
    // walk instead of recursing forever.
    let s = store(vec![
        commit(b"c1", b"commit-one", b"t1"),
        tree(
            b"t1",
            b"tree-one",
            vec![entry(b"self", Some(ObjKind::Tree), b"t1")],
        ),
    ]);
    assert!(matches!(compute(&s, b"c1"), Err(EvTagError::MalformedGraph)));
}

#[test]
fn tag_table_does_not_influence_the_digest() {
    // The engine ignores the tag table entirely: adding tags changes nothing.
    let mut s = simple_store();
    let d1 = compute(&s, b"c1").expect("digest");
    s.tags = vec![TagRec {
        name: b"v1".to_vec(),
        target: b"c1".to_vec(),
        annotated: true,
        message: b"irrelevant".to_vec(),
    }];
    let d2 = compute(&s, b"c1").expect("digest");
    assert_eq!(d1, d2);
}
