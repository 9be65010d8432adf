//! The verification protocol over model stores: the round trip between
//! computing a digest and checking the tag message's embedded checksum line,
//! and every failure of the protocol's own steps.

use git_evtag::engine::compute;
use git_evtag::errors::EvTagError;
use git_evtag::kind::ObjKind;
use git_evtag::message::find_checksum;
use git_evtag::protocol::verify_store;
use git_evtag::store::{SEntry, SObj, Store, SubLink, TagRec};

const PREFIX: &str = "Git-EVTag-v0-SHA512:";

fn blob(oid: &[u8], bytes: &[u8]) -> SObj {
    SObj {
        oid: oid.to_vec(),
        kind: ObjKind::Blob,
        bytes: bytes.to_vec(),
        tree: Vec::new(),
        entries: Vec::new(),
    }
}

fn tree(oid: &[u8], bytes: &[u8], entries: Vec<SEntry>) -> SObj {
    SObj {
        oid: oid.to_vec(),
        kind: ObjKind::Tree,
        bytes: bytes.to_vec(),
        tree: Vec::new(),
        entries,
    }
}

fn commit(oid: &[u8], bytes: &[u8], tree: &[u8]) -> SObj {
    SObj {
        oid: oid.to_vec(),
        kind: ObjKind::Commit,
        bytes: bytes.to_vec(),
        tree: tree.to_vec(),
        entries: Vec::new(),
    }
}

fn entry(name: &[u8], kind: Option<ObjKind>, oid: &[u8]) -> SEntry {
    SEntry {
        name: name.to_vec(),
        kind,
        oid: oid.to_vec(),
    }
}

fn tagged_store(message: &[u8]) -> Store {
    Store {
        objects: vec![
            commit(b"c1", b"commit-one", b"t1"),
            tree(b"t1", b"tree-one", vec![entry(b"file", Some(ObjKind::Blob), b"b1")]),
            blob(b"b1", b"hello"),
        ],
        subprojects: Vec::new(),
        tags: vec![TagRec {
            name: b"v1".to_vec(),
            target: b"c1".to_vec(),
            annotated: true,
            message: message.to_vec(),
        }],
    }
}

fn digest_hex(s: &Store, oid: &[u8]) -> String {
    hex::encode(compute(s, oid).expect("digest"))
}

#[test]
fn round_trip_verification_succeeds() {
    let mut s = tagged_store(b"");
    let hex = digest_hex(&s, b"c1");
    let message = format!("release one\n\n{}{}\n", PREFIX, hex);
    s.tags[0].message = message.into_bytes();
    let found = verify_store(&s, b"v1").expect("verification");
    assert_eq!(found, hex.into_bytes());
}

#[test]
fn round_trip_tolerates_surrounding_whitespace() {
    let mut s = tagged_store(b"");
    let hex = digest_hex(&s, b"c1");
    let message = format!("heading\n{} {} \ntrailing\n", PREFIX, hex);
    s.tags[0].message = message.into_bytes();
    let found = verify_store(&s, b"v1").expect("verification");
    assert_eq!(found, hex.into_bytes());
}

#[test]
fn round_trip_accepts_uppercase_hex() {
    // The embedded checksum is compared after normalizing to lowercase hex,
    // so a correct digest written in uppercase verifies; the found value is
    // reported as embedded.
    let mut s = tagged_store(b"");
    let upper = digest_hex(&s, b"c1").to_uppercase();
    let message = format!("release one\n{}{}\n", PREFIX, upper);
    s.tags[0].message = message.into_bytes();
    let found = verify_store(&s, b"v1").expect("verification");
    assert_eq!(found, upper.into_bytes());
}

#[test]
fn non_hex_letters_are_not_normalized() {
    // Only the uppercase hex letters fold; a byte outside them stays as it
    // is and a wrong value stays wrong.
    let mut s = tagged_store(b"");
    let mut wrong = digest_hex(&s, b"c1").into_bytes();
    wrong[0] = b'G';
    let mut message = format!("release one\n{}", PREFIX).into_bytes();
    message.extend_from_slice(&wrong);
    message.push(b'\n');
    s.tags[0].message = message;
    assert!(matches!(
        verify_store(&s, b"v1"),
        Err(EvTagError::ChecksumMismatch { .. })
    ));
}

#[test]
fn mutating_one_hex_character_fails_with_mismatch() {
    let mut s = tagged_store(b"");
    let hex = digest_hex(&s, b"c1");
    let mut wrong = hex.clone().into_bytes();
    wrong[0] = if wrong[0] == b'0' { b'1' } else { b'0' };
    let mut message = format!("release one\n{}", PREFIX).into_bytes();
    message.extend_from_slice(&wrong);
    message.push(b'\n');
    s.tags[0].message = message;
    match verify_store(&s, b"v1") {
        Err(EvTagError::ChecksumMismatch { expected, found }) => {
            assert_eq!(expected, hex.into_bytes());
            assert_eq!(found, wrong);
        }
        other => panic!("expected a checksum mismatch, got {:?}", other),
    }
}

#[test]
fn first_matching_line_is_authoritative() {
    let mut s = tagged_store(b"");
    let hex = digest_hex(&s, b"c1");
    // A wrong value on a later matching line is never reached.
    let message = format!("{}{}\n{}ffff\n", PREFIX, hex, PREFIX);
    s.tags[0].message = message.into_bytes();
    assert!(verify_store(&s, b"v1").is_ok());
    // And a wrong value on the first matching line is not saved by a
    // correct one later.
    let message = format!("{}ffff\n{}{}\n", PREFIX, PREFIX, hex);
    s.tags[0].message = message.into_bytes();
    assert!(matches!(
        verify_store(&s, b"v1"),
        Err(EvTagError::ChecksumMismatch { .. })
    ));
}

#[test]
fn message_without_checksum_line_fails() {
    let s = tagged_store(b"release one\nno checksum here\n");
    assert!(matches!(
        verify_store(&s, b"v1"),
        Err(EvTagError::NoChecksumFound)
    ));
}

#[test]
fn prefix_must_start_the_line() {
    let mut s = tagged_store(b"");
    let hex = digest_hex(&s, b"c1");
    let message = format!("see {}{}\n", PREFIX, hex);
    s.tags[0].message = message.into_bytes();
    assert!(matches!(
        verify_store(&s, b"v1"),
        Err(EvTagError::NoChecksumFound)
    ));
}

#[test]
fn unknown_tag_fails_before_any_hashing() {
    // The store's object arena is empty: were any hashing attempted it
    // could only fail with a lookup error, so the unknown-tag answer shows
    // the name decided the outcome.
    let s = Store {
        objects: Vec::new(),
        subprojects: Vec::new(),
        tags: Vec::new(),
    };
    assert!(matches!(
        verify_store(&s, b"does-not-exist"),
        Err(EvTagError::UnknownTag)
    ));
}

#[test]
fn lightweight_tag_is_rejected() {
    let mut s = tagged_store(b"whatever");
    s.tags[0].annotated = false;
    assert!(matches!(
        verify_store(&s, b"v1"),
        Err(EvTagError::NotAnAnnotatedTag)
    ));
}

#[test]
fn engine_failure_propagates_through_verification() {
    let mut s = tagged_store(b"whatever");
    s.tags[0].target = b"nowhere".to_vec();
    assert!(matches!(
        verify_store(&s, b"v1"),
        Err(EvTagError::ObjectLookup { .. })
    ));
}

#[test]
fn subproject_round_trip_verifies() {
    let mut s = Store {
        objects: vec![
            commit(b"c1", b"commit-one", b"t1"),
            tree(
                b"t1",
                b"tree-one",
                vec![entry(b"vendored", Some(ObjKind::Commit), b"sub-c")],
            ),
            commit(b"sub-c", b"sub-commit", b"sub-t"),
            tree(b"sub-t", b"sub-tree", Vec::new()),
        ],
        subprojects: vec![SubLink {
            name: b"vendored".to_vec(),
            head: Some(b"sub-c".to_vec()),
        }],
        tags: Vec::new(),
    };
    let hex = digest_hex(&s, b"c1");
    s.tags = vec![TagRec {
        name: b"v2".to_vec(),
        target: b"c1".to_vec(),
        annotated: true,
        message: format!("{}{}\n", PREFIX, hex).into_bytes(),
    }];
    assert!(verify_store(&s, b"v2").is_ok());
}

#[test]
fn find_checksum_extracts_the_trimmed_payload() {
    let msg = format!("subject\n\n{}  abc123\t\nrest", PREFIX);
    let found = find_checksum(msg.as_bytes()).expect("a checksum line");
    assert_eq!(found, b"abc123".to_vec());
}

#[test]
fn find_checksum_handles_a_final_unterminated_line() {
    let msg = format!("subject\n{}deadbeef", PREFIX);
    let found = find_checksum(msg.as_bytes()).expect("a checksum line");
    assert_eq!(found, b"deadbeef".to_vec());
}

#[test]
fn find_checksum_reports_nothing_on_empty_or_plain_messages() {
    assert!(find_checksum(b"").is_none());
    assert!(find_checksum(b"plain\nlines\nonly\n").is_none());
    // A line holding the prefix alone yields an empty payload, not nothing.
    let msg = format!("{}\n", PREFIX);
    assert_eq!(find_checksum(msg.as_bytes()), Some(Vec::new()));
}
