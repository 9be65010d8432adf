//! The kinds of object the content store holds, and their header names.

use vstd::prelude::*;

verus! {

/// The kind of a content-addressed object.
#[derive(Clone, Copy, PartialEq, Eq, Structural, Debug)]
pub enum ObjKind {
    Blob,
    Tree,
    Commit,
    Tag,
}

/// The lowercase name of an object kind, exactly as it appears in the
/// header that frames the object's bytes in the digest stream.
pub open spec fn spec_kind_name(k: ObjKind) -> Seq<u8> {
    match k {
        ObjKind::Blob => seq![98u8, 108u8, 111u8, 98u8],
        ObjKind::Tree => seq![116u8, 114u8, 101u8, 101u8],
        ObjKind::Commit => seq![99u8, 111u8, 109u8, 109u8, 105u8, 116u8],
        ObjKind::Tag => seq![116u8, 97u8, 103u8],
    }
}

/// The header name of an object kind as bytes.
pub fn kind_name(k: ObjKind) -> (v: Vec<u8>)
    ensures
        v@ == spec_kind_name(k),
{
    let mut v: Vec<u8> = Vec::new();
    match k {
        ObjKind::Blob => {
            v.push(98);
            v.push(108);
            v.push(111);
            v.push(98);
        }
        ObjKind::Tree => {
            v.push(116);
            v.push(114);
            v.push(101);
            v.push(101);
        }
        ObjKind::Commit => {
            v.push(99);
            v.push(111);
            v.push(109);
            v.push(109);
            v.push(105);
            v.push(116);
        }
        ObjKind::Tag => {
            v.push(116);
            v.push(97);
            v.push(103);
        }
    }
    proof {
        assert(v@ =~= spec_kind_name(k));
    }
    v
}

} // verus!
