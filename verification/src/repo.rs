//! The engine and protocol over a real on-disk repository.
//!
//! All reads go through the `git2` object database behind trusted wrappers.
//! What comes back from disk cannot be pinned down by a contract — another
//! process may rewrite the repository between two reads — so each wrapper
//! promises only what holds of every outcome, and the traversal here is
//! verified to frame whatever was read exactly as `frame` specifies, to
//! dispatch entries exactly as the engine does on the model store, and never
//! to panic. The functional contract of the algorithm itself lives in
//! `engine` and `protocol`, whose functions take the store as a value.

use vstd::prelude::*;
use vstd::slice::slice_to_vec;

use crate::digest::{hex_of, lemma_hex_of_len, lower_hex, sha512, sha512_of};
use crate::engine::DEFAULT_FUEL;
use crate::errors::{engine_failure, EvTagError};
use crate::frame::{push_bytes, push_frame, spec_frame};
use crate::kind::ObjKind;
use crate::message::check_message;

verus! {

#[verifier::external_type_specification]
#[verifier::external_body]
pub struct ExRepository(git2::Repository);

#[verifier::external_type_specification]
#[verifier::external_body]
pub struct ExOid(git2::Oid);

#[verifier::external_type_specification]
#[verifier::external_body]
pub struct ExGitError(git2::Error);

/// One tree entry as read from the repository: its name, the kind the tree
/// records for it (`None` for a kind the engine does not interpret), and the
/// identifier of the referenced object.
pub struct RawEntry {
    pub name: Vec<u8>,
    pub kind: Option<ObjKind>,
    pub id: git2::Oid,
}

/// Relies on `git2::Repository::discover`: walks up from `path` and opens
/// the enclosing repository.
#[verifier::external_body]
fn repo_discover(path: &str) -> (r: Result<git2::Repository, git2::Error>) {
    git2::Repository::discover(path)
}

/// Relies on `git2::Repository::odb` and `git2::Odb::read`: reads one
/// object's kind and raw bytes from the object database. The kind is mapped
/// variant by variant onto the library's own; a kind the engine does not
/// interpret becomes `None`.
#[verifier::external_body]
fn odb_read(repo: &git2::Repository, oid: &git2::Oid) -> (r: Result<
    (Option<ObjKind>, Vec<u8>),
    git2::Error,
>) {
    let odb = repo.odb()?;
    let obj = odb.read(*oid)?;
    let kind = match obj.kind() {
        git2::ObjectType::Blob => Some(ObjKind::Blob),
        git2::ObjectType::Tree => Some(ObjKind::Tree),
        git2::ObjectType::Commit => Some(ObjKind::Commit),
        git2::ObjectType::Tag => Some(ObjKind::Tag),
        git2::ObjectType::Any => None,
    };
    Ok((kind, obj.data().to_vec()))
}

/// Relies on `git2::Repository::find_tree` and `git2::Tree::iter`: lists a
/// tree's entries in the store's canonical order, each mapped to its name
/// bytes, recorded kind and identifier.
#[verifier::external_body]
fn tree_entries(repo: &git2::Repository, oid: &git2::Oid) -> (r: Result<
    Vec<RawEntry>,
    git2::Error,
>) {
    let tree = repo.find_tree(*oid)?;
    Ok(tree.iter().map(
        |e|
            RawEntry {
                name: e.name_bytes().to_vec(),
                kind: match e.kind() {
                    Some(git2::ObjectType::Blob) => Some(ObjKind::Blob),
                    Some(git2::ObjectType::Tree) => Some(ObjKind::Tree),
                    Some(git2::ObjectType::Commit) => Some(ObjKind::Commit),
                    Some(git2::ObjectType::Tag) => Some(ObjKind::Tag),
                    _ => None,
                },
                id: e.id(),
            },
    ).collect())
}

/// Relies on `git2::Repository::find_commit` and `git2::Commit::tree_id`:
/// the identifier of the commit's root tree.
#[verifier::external_body]
fn commit_tree_id(repo: &git2::Repository, oid: &git2::Oid) -> (r: Result<git2::Oid, git2::Error>) {
    Ok(repo.find_commit(*oid)?.tree_id())
}

/// Relies on `git2::Repository::find_submodule`, `git2::Submodule::open` and
/// `git2::Submodule::workdir_id`: opens the sub-project recorded under the
/// given entry name and reports the commit its working tree is checked out
/// to, `None` when none is recorded.
#[verifier::external_body]
fn subproject_head(repo: &git2::Repository, name: &[u8]) -> (r: Result<
    (git2::Repository, Option<git2::Oid>),
    git2::Error,
>) {
    let name = core::str::from_utf8(name).map_err(
        |_| git2::Error::from_str("entry name is not valid UTF-8"),
    )?;
    let sm = repo.find_submodule(name)?;
    let sub = sm.open()?;
    Ok((sub, sm.workdir_id()))
}

/// Relies on `git2::Repository::refname_to_id`: resolves a fully qualified
/// reference name to the object identifier it points at.
#[verifier::external_body]
fn refname_to_id(repo: &git2::Repository, refname: &[u8]) -> (r: Result<git2::Oid, git2::Error>) {
    let name = core::str::from_utf8(refname).map_err(
        |_| git2::Error::from_str("reference name is not valid UTF-8"),
    )?;
    repo.refname_to_id(name)
}

/// Relies on `git2::Repository::find_tag`, `git2::Tag::target` and
/// `git2::Tag::message_bytes`: reads an annotated tag's target identifier
/// and its message, `None` when the tag carries none.
#[verifier::external_body]
fn read_tag(repo: &git2::Repository, oid: &git2::Oid) -> (r: Result<
    (git2::Oid, Option<Vec<u8>>),
    git2::Error,
>) {
    let tag = repo.find_tag(*oid)?;
    let target = tag.target()?.id();
    Ok((target, tag.message_bytes().map(|m| m.to_vec())))
}

/// Relies on `git2::Oid::as_bytes`: the identifier's raw bytes, 20 of them
/// for the SHA-1 identifiers this repository format uses.
#[verifier::external_body]
fn oid_bytes(oid: &git2::Oid) -> (r: Vec<u8>)
    ensures
        r@.len() == 20,
{
    oid.as_bytes().to_vec()
}

/// Relies on the `std::fmt::Display` impl of `git2::Oid`: the identifier as
/// lowercase hex, 40 digits for the SHA-1 identifiers this repository format
/// uses.
#[verifier::external_body]
fn oid_hex(oid: &git2::Oid) -> (r: Vec<u8>)
    ensures
        r@.len() == 40,
{
    oid.to_string().into_bytes()
}

/// The tag-reference namespace, `refs/tags/` as bytes.
pub open spec fn spec_refs_tags() -> Seq<u8> {
    seq![114u8, 101u8, 102u8, 115u8, 47u8, 116u8, 97u8, 103u8, 115u8, 47u8]
}

/// The fully qualified reference name of a tag: `refs/tags/` plus the name.
pub fn full_tag_ref(tagname: &[u8]) -> (v: Vec<u8>)
    ensures
        v@ == spec_refs_tags() + tagname@,
{
    let mut v: Vec<u8> = Vec::new();
    v.push(114);
    v.push(101);
    v.push(102);
    v.push(115);
    v.push(47);
    v.push(116);
    v.push(97);
    v.push(103);
    v.push(115);
    v.push(47);
    proof {
        assert(v@ =~= spec_refs_tags());
    }
    push_bytes(&mut v, tagname);
    v
}

/// `a` written out first, whatever follows: `b` extends `a`.
pub open spec fn stream_ext(a: Seq<u8>, b: Seq<u8>) -> bool {
    a.len() <= b.len() && b.subrange(0, a.len() as int) == a
}

proof fn lemma_stream_ext_refl(a: Seq<u8>)
    ensures
        stream_ext(a, a),
{
    assert(a.subrange(0, a.len() as int) =~= a);
}

proof fn lemma_stream_ext_trans(a: Seq<u8>, b: Seq<u8>, c: Seq<u8>)
    requires
        stream_ext(a, b),
        stream_ext(b, c),
    ensures
        stream_ext(a, c),
{
    assert(c.subrange(0, a.len() as int) =~= a) by {
        assert(forall|i: int|
            0 <= i < a.len() ==> c.subrange(0, a.len() as int)[i] == c.subrange(
                0,
                b.len() as int,
            )[i]);
    }
}

proof fn lemma_stream_ext_push(a: Seq<u8>, t: Seq<u8>)
    ensures
        stream_ext(a, a + t),
{
    assert((a + t).subrange(0, a.len() as int) =~= a);
}

proof fn lemma_stream_ext_split(a: Seq<u8>, b: Seq<u8>)
    requires
        stream_ext(a, b),
    ensures
        b == a + b.skip(a.len() as int),
{
    assert(b =~= a + b.skip(a.len() as int)) by {
        assert(forall|i: int| 0 <= i < a.len() ==> b[i] == b.subrange(0, a.len() as int)[i]);
    }
}

/// A handle on the repository whose tags and commits are checked.
pub struct EvTag {
    repo: git2::Repository,
}

/// A tag resolved to its own identifier, its target commit and its message.
pub struct ResolvedTag {
    pub tag_oid: git2::Oid,
    pub target: git2::Oid,
    pub message: Vec<u8>,
}

impl EvTag {
    /// Open the repository that encloses `path`.
    pub fn new(path: &str) -> (r: Result<EvTag, EvTagError>)
        ensures
            r is Err ==> r->Err_0 matches EvTagError::ObjectLookup { .. },
    {
        match repo_discover(path) {
            Ok(repo) => Ok(EvTag { repo }),
            Err(_) => Err(EvTagError::ObjectLookup { oid: Vec::new() }),
        }
    }

    /// Read one object and append its frame to the running stream: header,
    /// NUL separator, raw bytes, exactly as `spec_frame` lays them out. On
    /// failure the stream is untouched: the read precedes every write.
    fn checksum_object(
        &self,
        repo: &git2::Repository,
        oid: &git2::Oid,
        acc: &mut Vec<u8>,
    ) -> (r: Result<(ObjKind, Vec<u8>), EvTagError>)
        ensures
            r is Ok ==> final(acc)@ == old(acc)@ + spec_frame(r->Ok_0.0, r->Ok_0.1@),
            r is Err ==> final(acc)@ == old(acc)@ && engine_failure(r->Err_0),
            stream_ext(old(acc)@, final(acc)@),
    {
        proof {
            lemma_stream_ext_refl(acc@);
        }
        let (kind, bytes) = match odb_read(repo, oid) {
            Err(_) => {
                return Err(EvTagError::ObjectLookup { oid: oid_bytes(oid) });
            },
            Ok(kb) => kb,
        };
        let k = match kind {
            None => {
                return Err(EvTagError::MalformedGraph);
            },
            Some(k) => k,
        };
        push_frame(acc, k, bytes.as_slice());
        proof {
            lemma_stream_ext_push(old(acc)@, spec_frame(k, bytes@));
        }
        Ok((k, bytes))
    }

    /// Fold a sub-project into the running stream: open the nested
    /// repository recorded under the entry's name, find the commit it is
    /// checked out to, and hash that commit's full contents — its frame,
    /// then its root tree — into the same accumulator.
    fn checksum_submodule(
        &self,
        repo: &git2::Repository,
        entry_name: &[u8],
        entry_oid: &git2::Oid,
        fuel: u64,
        acc: &mut Vec<u8>,
    ) -> (r: Result<(), EvTagError>)
        ensures
            stream_ext(old(acc)@, final(acc)@),
            r is Err ==> engine_failure(r->Err_0),
            r is Ok ==> exists|cb: Seq<u8>, rest: Seq<u8>|
                final(acc)@ == old(acc)@ + spec_frame(ObjKind::Commit, cb) + rest,
        decreases fuel, 3nat,
    {
        proof {
            lemma_stream_ext_refl(acc@);
        }
        let (subrepo, head_opt) = match subproject_head(repo, entry_name) {
            Err(_) => {
                return Err(EvTagError::ObjectLookup { oid: oid_bytes(entry_oid) });
            },
            Ok(x) => x,
        };
        let head = match head_opt {
            None => {
                return Err(EvTagError::DetachedSubproject { name: slice_to_vec(entry_name) });
            },
            Some(h) => h,
        };
        self.checksum_commit_contents(&subrepo, &head, fuel, acc)
    }

    /// Fold one tree entry into the running stream, dispatched on the kind
    /// the tree records for it: a blob's frame, a nested tree recursively, a
    /// sub-project's linked commit, nothing at all for a tag-kind entry, and
    /// a malformed-graph failure — never silence — for a kind the engine
    /// does not interpret.
    fn checksum_entry(
        &self,
        repo: &git2::Repository,
        e: &RawEntry,
        fuel: u64,
        acc: &mut Vec<u8>,
    ) -> (r: Result<(), EvTagError>)
        ensures
            stream_ext(old(acc)@, final(acc)@),
            r is Err ==> engine_failure(r->Err_0),
            e.kind is None ==> r is Err && r->Err_0 matches EvTagError::MalformedGraph,
            e.kind == Some(ObjKind::Tag) ==> r is Ok && final(acc)@ == old(acc)@,
            r is Ok && e.kind == Some(ObjKind::Blob) ==> exists|b: Seq<u8>|
                final(acc)@ == old(acc)@ + spec_frame(ObjKind::Blob, b),
        decreases fuel, 0nat,
    {
        proof {
            lemma_stream_ext_refl(acc@);
        }
        match &e.kind {
            None => Err(EvTagError::MalformedGraph),
            Some(ObjKind::Tag) => Ok(()),
            Some(ObjKind::Blob) => {
                let (k2, b) = match self.checksum_object(repo, &e.id, acc) {
                    Err(err) => {
                        return Err(err);
                    },
                    Ok(kb) => kb,
                };
                if k2 != ObjKind::Blob {
                    return Err(EvTagError::ObjectLookup { oid: oid_bytes(&e.id) });
                }
                proof {
                    assert(acc@ == old(acc)@ + spec_frame(ObjKind::Blob, b@));
                }
                Ok(())
            },
            Some(ObjKind::Tree) => {
                if fuel == 0 {
                    return Err(EvTagError::MalformedGraph);
                }
                self.checksum_tree(repo, &e.id, fuel - 1, acc)
            },
            Some(ObjKind::Commit) => {
                if fuel == 0 {
                    return Err(EvTagError::MalformedGraph);
                }
                self.checksum_submodule(repo, e.name.as_slice(), &e.id, fuel - 1, acc)
            },
        }
    }

    /// Hash a tree into the running stream: the tree's own frame, then its
    /// entries, each folded in by `checksum_entry`, strictly in the order
    /// the repository lists them — the store's canonical order, which is
    /// never re-sorted here.
    fn checksum_tree(
        &self,
        repo: &git2::Repository,
        oid: &git2::Oid,
        fuel: u64,
        acc: &mut Vec<u8>,
    ) -> (r: Result<(), EvTagError>)
        ensures
            stream_ext(old(acc)@, final(acc)@),
            r is Err ==> engine_failure(r->Err_0),
            r is Ok ==> exists|tb: Seq<u8>, rest: Seq<u8>|
                final(acc)@ == old(acc)@ + spec_frame(ObjKind::Tree, tb) + rest,
        decreases fuel, 1nat,
    {
        let (k, tb) = match self.checksum_object(repo, oid, acc) {
            Err(e) => {
                return Err(e);
            },
            Ok(kb) => kb,
        };
        if k != ObjKind::Tree {
            return Err(EvTagError::ObjectLookup { oid: oid_bytes(oid) });
        }
        let entries = match tree_entries(repo, oid) {
            Err(_) => {
                return Err(EvTagError::ObjectLookup { oid: oid_bytes(oid) });
            },
            Ok(es) => es,
        };
        let ghost after_frame: Seq<u8> = acc@;
        proof {
            lemma_stream_ext_refl(acc@);
        }
        let mut i: usize = 0;
        while i < entries.len()
            invariant
                i <= entries@.len(),
                after_frame == old(acc)@ + spec_frame(ObjKind::Tree, tb@),
                stream_ext(old(acc)@, after_frame),
                stream_ext(after_frame, acc@),
            decreases entries@.len() - i,
        {
            let ghost before: Seq<u8> = acc@;
            let res = self.checksum_entry(repo, &entries[i], fuel, acc);
            proof {
                lemma_stream_ext_trans(after_frame, before, acc@);
                lemma_stream_ext_trans(old(acc)@, after_frame, acc@);
            }
            match res {
                Err(err) => {
                    return Err(err);
                },
                Ok(()) => {},
            }
            i += 1;
        }
        proof {
            lemma_stream_ext_trans(old(acc)@, after_frame, acc@);
            lemma_stream_ext_split(after_frame, acc@);
            assert(acc@ =~= old(acc)@ + spec_frame(ObjKind::Tree, tb@) + acc@.skip(
                after_frame.len() as int,
            ));
        }
        Ok(())
    }

    /// Hash a commit's contents into the running stream: the commit's own
    /// frame first — its parents and metadata travel inside those bytes and
    /// are not walked separately — then its root tree's whole contribution.
    fn checksum_commit_contents(
        &self,
        repo: &git2::Repository,
        oid: &git2::Oid,
        fuel: u64,
        acc: &mut Vec<u8>,
    ) -> (r: Result<(), EvTagError>)
        ensures
            stream_ext(old(acc)@, final(acc)@),
            r is Err ==> engine_failure(r->Err_0),
            r is Ok ==> exists|cb: Seq<u8>, rest: Seq<u8>|
                final(acc)@ == old(acc)@ + spec_frame(ObjKind::Commit, cb) + rest,
        decreases fuel, 2nat,
    {
        proof {
            lemma_stream_ext_refl(acc@);
        }
        let tree_oid = match commit_tree_id(repo, oid) {
            Err(_) => {
                return Err(EvTagError::ObjectLookup { oid: oid_bytes(oid) });
            },
            Ok(t) => t,
        };
        let (k, cb) = match self.checksum_object(repo, oid, acc) {
            Err(e) => {
                return Err(e);
            },
            Ok(kb) => kb,
        };
        if k != ObjKind::Commit {
            return Err(EvTagError::ObjectLookup { oid: oid_bytes(oid) });
        }
        let ghost mid: Seq<u8> = acc@;
        let res = self.checksum_tree(repo, &tree_oid, fuel, acc);
        proof {
            lemma_stream_ext_trans(old(acc)@, mid, acc@);
        }
        match res {
            Err(e) => Err(e),
            Ok(()) => {
                proof {
                    lemma_stream_ext_split(mid, acc@);
                    assert(acc@ =~= old(acc)@ + spec_frame(ObjKind::Commit, cb@) + acc@.skip(
                        mid.len() as int,
                    ));
                }
                Ok(())
            },
        }
    }

    /// Compute the digest of the commit named `oid` over its full transitive
    /// content: every blob, nested tree and linked sub-project revision,
    /// folded into one SHA-512 over the framed byte stream, which opens with
    /// the commit's own frame. Fails only as the engine can: an unresolvable
    /// identifier, a malformed graph, or a detached sub-project.
    pub fn compute(&self, oid: &git2::Oid) -> (r: Result<Vec<u8>, EvTagError>)
        ensures
            r is Ok ==> r->Ok_0@.len() == 64 && (exists|cb: Seq<u8>, rest: Seq<u8>|
                r->Ok_0@ == sha512_of(spec_frame(ObjKind::Commit, cb) + rest)),
            r is Err ==> engine_failure(r->Err_0),
    {
        let mut acc: Vec<u8> = Vec::new();
        match self.checksum_commit_contents(&self.repo, oid, DEFAULT_FUEL, &mut acc) {
            Err(e) => Err(e),
            Ok(()) => {
                let d = sha512(acc.as_slice());
                proof {
                    let (cb, rest) = choose|cb: Seq<u8>, rest: Seq<u8>|
                        acc@ == Seq::<u8>::empty() + spec_frame(ObjKind::Commit, cb) + rest;
                    assert(acc@ =~= spec_frame(ObjKind::Commit, cb) + rest);
                    assert(d@ == sha512_of(spec_frame(ObjKind::Commit, cb) + rest));
                }
                Ok(d)
            },
        }
    }

    /// Resolve a tag name to the tag's own identifier, its target commit and
    /// its message. An unresolvable name is an unknown tag; a reference that
    /// is not an annotated tag with a message cannot carry a checksum line.
    pub fn resolve_tag(&self, tagname: &[u8]) -> (r: Result<ResolvedTag, EvTagError>)
        ensures
            r is Err ==> r->Err_0 matches EvTagError::UnknownTag || r->Err_0
                matches EvTagError::NotAnAnnotatedTag,
    {
        let refname = full_tag_ref(tagname);
        let oid = match refname_to_id(&self.repo, refname.as_slice()) {
            Err(_) => {
                return Err(EvTagError::UnknownTag);
            },
            Ok(o) => o,
        };
        let (target, msg) = match read_tag(&self.repo, &oid) {
            Err(_) => {
                return Err(EvTagError::NotAnAnnotatedTag);
            },
            Ok(x) => x,
        };
        let message = match msg {
            None => {
                return Err(EvTagError::NotAnAnnotatedTag);
            },
            Some(m) => m,
        };
        Ok(ResolvedTag { tag_oid: oid, target, message })
    }

    /// The tag's own identifier as lowercase hex, as an external signature
    /// checker expects it on its command line.
    pub fn tag_oid_hex(&self, tag: &ResolvedTag) -> (r: Vec<u8>)
        ensures
            r@.len() == 40,
    {
        oid_hex(&tag.tag_oid)
    }

    /// Verify an already-resolved tag: digest its target commit's full
    /// transitive content and compare against the checksum embedded in its
    /// message, normalized to lowercase hex. Taking the resolved tag lets a
    /// caller check the signature against exactly the resolution the digest
    /// comparison uses. Returns the embedded checksum as found — 128 hex
    /// digits whose lowercase form is the computed digest's hex.
    pub fn verify_resolved(&self, tag: &ResolvedTag) -> (r: Result<Vec<u8>, EvTagError>)
        ensures
            r is Ok ==> r->Ok_0@.len() == 128 && (exists|d: Seq<u8>|
                d.len() == 64 && lower_hex(r->Ok_0@) == hex_of(d) && (exists|
                    cb: Seq<u8>,
                    rest: Seq<u8>,
                | d == sha512_of(spec_frame(ObjKind::Commit, cb) + rest))),
            r is Err ==> engine_failure(r->Err_0) || r->Err_0
                matches EvTagError::NoChecksumFound || r->Err_0
                matches EvTagError::ChecksumMismatch { .. },
    {
        let digest = match self.compute(&tag.target) {
            Err(e) => {
                return Err(e);
            },
            Ok(d) => d,
        };
        match check_message(tag.message.as_slice(), digest.as_slice()) {
            Err(e) => Err(e),
            Ok(found) => {
                proof {
                    lemma_hex_of_len(digest@);
                    assert(lower_hex(found@).len() == found@.len());
                    assert(digest@.len() == 64 && lower_hex(found@) == hex_of(digest@) && (exists|
                        cb: Seq<u8>,
                        rest: Seq<u8>,
                    | digest@ == sha512_of(spec_frame(ObjKind::Commit, cb) + rest)));
                }
                Ok(found)
            },
        }
    }

    /// Verify the tag named `tagname` without a signature check: resolve it,
    /// then verify the resolution. Fails with every error of the protocol's
    /// own steps and no other — the signature errors belong to the caller
    /// who invokes the external verifier.
    pub fn verify_tag(&self, tagname: &[u8]) -> (r: Result<Vec<u8>, EvTagError>)
        ensures
            r is Ok ==> r->Ok_0@.len() == 128 && (exists|d: Seq<u8>|
                d.len() == 64 && lower_hex(r->Ok_0@) == hex_of(d) && (exists|
                    cb: Seq<u8>,
                    rest: Seq<u8>,
                | d == sha512_of(spec_frame(ObjKind::Commit, cb) + rest))),
            r is Err ==> !(r->Err_0 matches EvTagError::SignatureTool) && !(r->Err_0
                matches EvTagError::SignatureVerification),
    {
        let rt = match self.resolve_tag(tagname) {
            Err(e) => {
                return Err(e);
            },
            Ok(rt) => rt,
        };
        self.verify_resolved(&rt)
    }
}

} // verus!
