//! Extended tag checksums: one digest over the full transitive content of a
//! commit — every blob, nested tree and linked sub-project revision — and the
//! protocol that checks such a digest against the checksum line embedded in an
//! annotated tag's message.

pub mod kind;
pub mod errors;
pub mod frame;
pub mod store;
pub mod digest;
pub mod engine;
pub mod message;
pub mod protocol;
pub mod repo;
