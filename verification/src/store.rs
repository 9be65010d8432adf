//! An in-memory model of the content store the engine walks.
//!
//! Every entity is an immutable, content-addressed node: an object is opaque
//! bytes plus a kind and an identifier. A tree additionally lists its entries
//! in the store's canonical order, and a commit names its root tree. Nested
//! sub-projects are modelled as a side table from entry name to the commit
//! identifier the sub-project is checked out to; identifiers are
//! content-derived, so one flat arena holds the objects of every nested
//! repository. Tags live in a table of their own.

use vstd::prelude::*;

use crate::kind::ObjKind;

verus! {

/// One entry of a tree: a name, the kind the tree records for the entry, and
/// the identifier of the referenced object. A kind the engine does not know
/// is `None`.
pub struct SEntry {
    pub name: Vec<u8>,
    pub kind: Option<ObjKind>,
    pub oid: Vec<u8>,
}

/// One object of the store. `bytes` is the raw content whose frame enters the
/// digest stream. `tree` names the root tree when the object is a commit;
/// `entries` lists the entries when it is a tree; each is ignored otherwise.
pub struct SObj {
    pub oid: Vec<u8>,
    pub kind: ObjKind,
    pub bytes: Vec<u8>,
    pub tree: Vec<u8>,
    pub entries: Vec<SEntry>,
}

/// Where a sub-project link leads: the entry name it is looked up by, and the
/// commit identifier its nested repository is checked out to — `None` when
/// nothing is recorded (a detached sub-project).
pub struct SubLink {
    pub name: Vec<u8>,
    pub head: Option<Vec<u8>>,
}

/// A named tag: its target object identifier, whether it is an annotated tag
/// (one with a message of its own), and that message.
pub struct TagRec {
    pub name: Vec<u8>,
    pub target: Vec<u8>,
    pub annotated: bool,
    pub message: Vec<u8>,
}

/// The model store: an arena of objects, the sub-project table, and the tags.
pub struct Store {
    pub objects: Vec<SObj>,
    pub subprojects: Vec<SubLink>,
    pub tags: Vec<TagRec>,
}

/// The first object of `objs` whose identifier is `oid`.
pub open spec fn lookup_obj(objs: Seq<SObj>, oid: Seq<u8>) -> Option<SObj>
    decreases objs.len(),
{
    if objs.len() == 0 {
        None
    } else if objs[0].oid@ == oid {
        Some(objs[0])
    } else {
        lookup_obj(objs.drop_first(), oid)
    }
}

/// The first sub-project link of `subs` whose name is `name`.
pub open spec fn lookup_sub(subs: Seq<SubLink>, name: Seq<u8>) -> Option<SubLink>
    decreases subs.len(),
{
    if subs.len() == 0 {
        None
    } else if subs[0].name@ == name {
        Some(subs[0])
    } else {
        lookup_sub(subs.drop_first(), name)
    }
}

/// The first tag of `tags` whose name is `name`.
pub open spec fn lookup_tag(tags: Seq<TagRec>, name: Seq<u8>) -> Option<TagRec>
    decreases tags.len(),
{
    if tags.len() == 0 {
        None
    } else if tags[0].name@ == name {
        Some(tags[0])
    } else {
        lookup_tag(tags.drop_first(), name)
    }
}

proof fn lemma_lookup_obj_at(objs: Seq<SObj>, oid: Seq<u8>, i: int)
    requires
        0 <= i < objs.len(),
        objs[i].oid@ == oid,
        forall|j: int| 0 <= j < i ==> objs[j].oid@ != oid,
    ensures
        lookup_obj(objs, oid) == Some(objs[i]),
    decreases i,
{
    if i > 0 {
        lemma_lookup_obj_at(objs.drop_first(), oid, i - 1);
    }
}

proof fn lemma_lookup_obj_none(objs: Seq<SObj>, oid: Seq<u8>)
    requires
        forall|j: int| 0 <= j < objs.len() ==> objs[j].oid@ != oid,
    ensures
        lookup_obj(objs, oid) is None,
    decreases objs.len(),
{
    if objs.len() > 0 {
        lemma_lookup_obj_none(objs.drop_first(), oid);
    }
}

proof fn lemma_lookup_sub_at(subs: Seq<SubLink>, name: Seq<u8>, i: int)
    requires
        0 <= i < subs.len(),
        subs[i].name@ == name,
        forall|j: int| 0 <= j < i ==> subs[j].name@ != name,
    ensures
        lookup_sub(subs, name) == Some(subs[i]),
    decreases i,
{
    if i > 0 {
        lemma_lookup_sub_at(subs.drop_first(), name, i - 1);
    }
}

proof fn lemma_lookup_sub_none(subs: Seq<SubLink>, name: Seq<u8>)
    requires
        forall|j: int| 0 <= j < subs.len() ==> subs[j].name@ != name,
    ensures
        lookup_sub(subs, name) is None,
    decreases subs.len(),
{
    if subs.len() > 0 {
        lemma_lookup_sub_none(subs.drop_first(), name);
    }
}

proof fn lemma_lookup_tag_at(tags: Seq<TagRec>, name: Seq<u8>, i: int)
    requires
        0 <= i < tags.len(),
        tags[i].name@ == name,
        forall|j: int| 0 <= j < i ==> tags[j].name@ != name,
    ensures
        lookup_tag(tags, name) == Some(tags[i]),
    decreases i,
{
    if i > 0 {
        lemma_lookup_tag_at(tags.drop_first(), name, i - 1);
    }
}

proof fn lemma_lookup_tag_none(tags: Seq<TagRec>, name: Seq<u8>)
    requires
        forall|j: int| 0 <= j < tags.len() ==> tags[j].name@ != name,
    ensures
        lookup_tag(tags, name) is None,
    decreases tags.len(),
{
    if tags.len() > 0 {
        lemma_lookup_tag_none(tags.drop_first(), name);
    }
}

/// Whether the objects of a store carry pairwise distinct identifiers — the
/// shape a content-addressed store always has.
pub open spec fn distinct_oids(objs: Seq<SObj>) -> bool {
    forall|i: int, k: int| 0 <= i < k < objs.len() ==> objs[i].oid@ != objs[k].oid@
}

/// How lookup behaves when one object of a store with distinct identifiers
/// is replaced by another bearing the same identifier: the replaced object
/// is found under that identifier, and every other lookup is unchanged.
pub proof fn lemma_lookup_obj_update(a: Seq<SObj>, b: Seq<SObj>, j: int, x: Seq<u8>)
    requires
        0 <= j < a.len(),
        b.len() == a.len(),
        forall|i: int| 0 <= i < a.len() && i != j ==> b[i] == a[i],
        b[j].oid@ == a[j].oid@,
        distinct_oids(a),
    ensures
        a[j].oid@ == x ==> lookup_obj(b, x) == Some(b[j]) && lookup_obj(a, x) == Some(a[j]),
        a[j].oid@ != x ==> lookup_obj(b, x) == lookup_obj(a, x),
    decreases a.len(),
{
    if j == 0 {
        if a[0].oid@ != x {
            assert(b.drop_first() =~= a.drop_first());
        }
    } else {
        assert(b[0] == a[0]);
        if a[0].oid@ != x {
            let at = a.drop_first();
            let bt = b.drop_first();
            assert(forall|i: int| 0 <= i < at.len() && i != j - 1 ==> bt[i] == at[i]);
            assert(distinct_oids(at)) by {
                assert(forall|i: int, k: int|
                    0 <= i < k < at.len() ==> at[i].oid@ == a[i + 1].oid@ && at[k].oid@ == a[
                        k + 1
                    ].oid@);
            }
            lemma_lookup_obj_update(at, bt, j - 1, x);
        }
    }
}

/// Whether two byte vectors hold the same bytes.
pub fn bytes_eq(a: &[u8], b: &[u8]) -> (r: bool)
    ensures
        r == (a@ == b@),
{
    if a.len() != b.len() {
        return false;
    }
    let mut i: usize = 0;
    while i < a.len()
        invariant
            a@.len() == b@.len(),
            i <= a@.len(),
            forall|j: int| 0 <= j < i ==> a@[j] == b@[j],
        decreases a@.len() - i,
    {
        if a[i] != b[i] {
            return false;
        }
        i += 1;
    }
    proof {
        assert(a@ =~= b@);
    }
    true
}

/// Find the object with identifier `oid`, scanning in store order.
pub fn find_obj<'a>(objs: &'a Vec<SObj>, oid: &[u8]) -> (r: Option<&'a SObj>)
    ensures
        match r {
            Some(o) => lookup_obj(objs@, oid@) == Some(*o),
            None => lookup_obj(objs@, oid@) is None,
        },
{
    let mut i: usize = 0;
    while i < objs.len()
        invariant
            i <= objs@.len(),
            forall|j: int| 0 <= j < i ==> objs@[j].oid@ != oid@,
        decreases objs@.len() - i,
    {
        if bytes_eq(objs[i].oid.as_slice(), oid) {
            proof {
                lemma_lookup_obj_at(objs@, oid@, i as int);
            }
            return Some(&objs[i]);
        }
        i += 1;
    }
    proof {
        lemma_lookup_obj_none(objs@, oid@);
    }
    None
}

/// Find the sub-project link with entry name `name`, scanning in store order.
pub fn find_sub<'a>(subs: &'a Vec<SubLink>, name: &[u8]) -> (r: Option<&'a SubLink>)
    ensures
        match r {
            Some(l) => lookup_sub(subs@, name@) == Some(*l),
            None => lookup_sub(subs@, name@) is None,
        },
{
    let mut i: usize = 0;
    while i < subs.len()
        invariant
            i <= subs@.len(),
            forall|j: int| 0 <= j < i ==> subs@[j].name@ != name@,
        decreases subs@.len() - i,
    {
        if bytes_eq(subs[i].name.as_slice(), name) {
            proof {
                lemma_lookup_sub_at(subs@, name@, i as int);
            }
            return Some(&subs[i]);
        }
        i += 1;
    }
    proof {
        lemma_lookup_sub_none(subs@, name@);
    }
    None
}

/// Find the tag named `name`, scanning in store order.
pub fn find_tag_rec<'a>(tags: &'a Vec<TagRec>, name: &[u8]) -> (r: Option<&'a TagRec>)
    ensures
        match r {
            Some(t) => lookup_tag(tags@, name@) == Some(*t),
            None => lookup_tag(tags@, name@) is None,
        },
{
    let mut i: usize = 0;
    while i < tags.len()
        invariant
            i <= tags@.len(),
            forall|j: int| 0 <= j < i ==> tags@[j].name@ != name@,
        decreases tags@.len() - i,
    {
        if bytes_eq(tags[i].name.as_slice(), name) {
            proof {
                lemma_lookup_tag_at(tags@, name@, i as int);
            }
            return Some(&tags[i]);
        }
        i += 1;
    }
    proof {
        lemma_lookup_tag_none(tags@, name@);
    }
    None
}

} // verus!
