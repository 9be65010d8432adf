//! The failure taxonomy of checksum computation and tag verification.
//!
//! Every failure is terminal for the running operation; nothing is retried.
//! Variants carry the context a caller needs to diagnose the failure: the
//! offending object identifier, the detached sub-project's entry name, or the
//! expected and found checksums.

use vstd::prelude::*;

verus! {

/// Why computing or verifying an extended tag checksum failed.
#[derive(PartialEq, Eq, Debug)]
pub enum EvTagError {
    /// The tag name did not resolve to any reference.
    UnknownTag,
    /// The reference did not resolve to an annotated tag with a message.
    NotAnAnnotatedTag,
    /// The external signature-verification program could not be invoked.
    SignatureTool,
    /// The external signature-verification program reported failure.
    SignatureVerification,
    /// A referenced object identifier could not be resolved, or resolved to
    /// an object of the wrong kind. Carries the identifier's raw bytes.
    ObjectLookup { oid: Vec<u8> },
    /// A tree entry reported a kind the engine does not interpret, or the
    /// graph nests deeper than the engine's recursion guard allows.
    MalformedGraph,
    /// A sub-project link whose nested repository records no checked-out
    /// commit. Carries the linking entry's name.
    DetachedSubproject { name: Vec<u8> },
    /// The tag message holds no line starting with the checksum prefix.
    NoChecksumFound,
    /// The checksum found in the tag message differs from the computed one.
    /// Both values are lowercase hex bytes.
    ChecksumMismatch { expected: Vec<u8>, found: Vec<u8> },
}

/// The payload-free shape of an error, for stating which failure a
/// specification-level run produces.
#[derive(Clone, Copy, PartialEq, Eq, Structural, Debug)]
pub enum ErrKind {
    UnknownTag,
    NotAnAnnotatedTag,
    SignatureTool,
    SignatureVerification,
    ObjectLookup,
    MalformedGraph,
    DetachedSubproject,
    NoChecksumFound,
    ChecksumMismatch,
}

/// Whether an error is one the checksum engine itself can produce: a failed
/// object lookup, a malformed graph, or a detached sub-project.
pub open spec fn engine_failure(e: EvTagError) -> bool {
    ||| e matches EvTagError::ObjectLookup { .. }
    ||| e matches EvTagError::MalformedGraph
    ||| e matches EvTagError::DetachedSubproject { .. }
}

/// The shape of an error value.
pub open spec fn err_kind(e: EvTagError) -> ErrKind {
    match e {
        EvTagError::UnknownTag => ErrKind::UnknownTag,
        EvTagError::NotAnAnnotatedTag => ErrKind::NotAnAnnotatedTag,
        EvTagError::SignatureTool => ErrKind::SignatureTool,
        EvTagError::SignatureVerification => ErrKind::SignatureVerification,
        EvTagError::ObjectLookup { .. } => ErrKind::ObjectLookup,
        EvTagError::MalformedGraph => ErrKind::MalformedGraph,
        EvTagError::DetachedSubproject { .. } => ErrKind::DetachedSubproject,
        EvTagError::NoChecksumFound => ErrKind::NoChecksumFound,
        EvTagError::ChecksumMismatch { .. } => ErrKind::ChecksumMismatch,
    }
}

} // verus!
