//! What a fetch of a node yields: a payload per kind, or a sentinel that
//! records why there is none; and the check of a fetched payload against the
//! identity it was fetched by.
use crate::ids::{
    ChangesetId, ContentId, DeletedManifestId, FsnodeId, Hash20, Hash32, HgChangesetId,
    HgFileNodeId, ManifestUnodeId, SkeletonManifestId, TypedId,
};
use crate::node::Node;
use crate::schema::NodeType;
use sha1::{Digest, Sha1};
use vstd::prelude::*;

verus! {

/// The SHA-1 digest of a byte sequence.
pub uninterp spec fn sha1_digest(data: Seq<u8>) -> Seq<u8>;

/// Relies on `sha1::Sha1::digest`: the 20-byte SHA-1 digest of `data`.
#[verifier::external_body]
fn sha1_of(data: &[u8]) -> (r: [u8; 20])
    ensures
        r@ == sha1_digest(data@),
{
    Sha1::digest(data).into()
}

/// An object as the store holds it, for kinds whose decoding belongs to the
/// store's own libraries.
#[derive(Clone, Debug, PartialEq, Eq, Hash)]
pub struct Blob {
    pub bytes: Vec<u8>,
}

/// Whether a commit is public or still a draft.
#[derive(Clone, Copy, Debug, PartialEq, Eq, Hash, Structural)]
pub enum Phase {
    Draft,
    Public,
}

/// A legacy-compatible file revision record.
#[derive(Clone, Copy, Debug, PartialEq, Eq, Hash)]
pub struct FilenodeInfo {
    pub filenode: HgFileNodeId,
    pub p1: Option<HgFileNodeId>,
    pub p2: Option<HgFileNodeId>,
    pub copyfrom: Option<HgFileNodeId>,
    pub linknode: HgChangesetId,
}

/// Size and aliases of a file's content.
#[derive(Clone, Copy, Debug, PartialEq, Eq, Hash)]
pub struct ContentMetadata {
    pub total_size: u64,
    pub content_id: ContentId,
    pub sha1: Hash20,
    pub sha256: Hash32,
    pub git_sha1: Hash20,
}

/// A legacy-compatible file envelope: the file's parents, the metadata
/// header stored before its content, and the content it refers to.
#[derive(Clone, Debug, PartialEq, Eq, Hash)]
pub struct HgFileEnvelope {
    pub p1: Option<HgFileNodeId>,
    pub p2: Option<HgFileNodeId>,
    pub content_id: ContentId,
    pub content_size: u64,
    pub metadata: Vec<u8>,
}

/// File content is handed over as a stream for the driver to read, so that
/// memory stays bounded on large files; `S` is the driver's stream type.
#[derive(Debug)]
pub enum FileContentData<S> {
    ContentStream(S),
    Consumed(usize),
}

/// The data from the walk: the full form of each kind's payload, not
/// necessarily loaded; or a sentinel.
#[derive(Debug)]
pub enum NodeData<S> {
    /// The fetch failed; the walk goes on.
    ErrorAsData(Node),
    /// The store does not have the node.
    MissingAsData(Node),
    /// The node was fetched but its payload does not match its identity.
    HashValidationFailureAsData(Node),
    /// The driver chose not to follow the edge.
    NotRequired,
    Bookmark(ChangesetId),
    Changeset(Blob),
    BonsaiHgMapping(Option<HgChangesetId>),
    PhaseMapping(Option<Phase>),
    PublishedBookmarks,
    HgBonsaiMapping(Option<ChangesetId>),
    HgChangeset(Blob),
    HgChangesetViaBonsai(HgChangesetId),
    HgManifest(Blob),
    HgFileEnvelope(HgFileEnvelope),
    HgFileNode(Option<FilenodeInfo>),
    HgManifestFileNode(Option<FilenodeInfo>),
    FileContent(FileContentData<S>),
    FileContentMetadata(Option<ContentMetadata>),
    AliasContentMapping(ContentId),
    Blame(Option<Blob>),
    ChangesetInfo(Option<Blob>),
    ChangesetInfoMapping(Option<ChangesetId>),
    DeletedManifest(Option<Blob>),
    DeletedManifestMapping(Option<DeletedManifestId>),
    FastlogBatch(Option<Blob>),
    FastlogDir(Option<Blob>),
    FastlogFile(Option<Blob>),
    Fsnode(Blob),
    FsnodeMapping(Option<FsnodeId>),
    SkeletonManifest(Option<Blob>),
    SkeletonManifestMapping(Option<SkeletonManifestId>),
    UnodeFile(Blob),
    UnodeManifest(Blob),
    UnodeMapping(Option<ManifestUnodeId>),
}

/// What the store collaborator reports for one fetch.
#[derive(Debug)]
pub enum FetchOutcome<T> {
    Found(T),
    NotFound,
    Failed,
}

impl<S> NodeData<S> {
    /// Turns a fetch outcome into node data: a payload as found, and the
    /// missing or error sentinel otherwise, so that one bad node never stops
    /// the walk.
    pub fn from_fetch(node: Node, outcome: FetchOutcome<NodeData<S>>) -> (r: NodeData<S>)
        ensures
            outcome is Found ==> r == outcome->Found_0,
            outcome is NotFound ==> r == NodeData::<S>::MissingAsData(node),
            outcome is Failed ==> r == NodeData::<S>::ErrorAsData(node),
    {
        match outcome {
            FetchOutcome::Found(d) => d,
            FetchOutcome::NotFound => NodeData::MissingAsData(node),
            FetchOutcome::Failed => NodeData::ErrorAsData(node),
        }
    }
}

/// Why a node's payload was not found valid.
#[derive(Clone, Debug, PartialEq, Eq)]
pub enum ValidationError {
    /// The kind's identity is not a hash that can be recomputed here.
    Unsupported(NodeType),
    /// The envelope's content was not supplied.
    ContentMissing { content: ContentId, filenode: HgFileNodeId },
    /// The recomputed identity differs from the claimed one.
    Mismatch { expected: HgFileNodeId, actual: HgFileNodeId },
}

/// Lexicographic order on byte sequences.
pub open spec fn lex_lt(a: Seq<u8>, b: Seq<u8>) -> bool
    decreases a.len(),
{
    if a.len() == 0 || b.len() == 0 {
        a.len() == 0 && b.len() > 0
    } else if a[0] != b[0] {
        a[0] < b[0]
    } else {
        lex_lt(a.drop_first(), b.drop_first())
    }
}

/// A parent's hash; the null hash (all zeros) for no parent.
pub open spec fn parent_bytes(p: Option<HgFileNodeId>) -> Seq<u8> {
    match p {
        Some(id) => id.id_bytes(),
        None => Seq::new(20, |i: int| 0u8),
    }
}

/// What the legacy node hash is taken over: the two parents' hashes, the
/// smaller first, then the file's text.
pub open spec fn hg_hash_input(p1: Option<HgFileNodeId>, p2: Option<HgFileNodeId>, text: Seq<u8>) -> Seq<u8> {
    let a = parent_bytes(p1);
    let b = parent_bytes(p2);
    if lex_lt(b, a) {
        b + a + text
    } else {
        a + b + text
    }
}

/// The legacy-compatible id of a file revision.
pub open spec fn hg_node_id(p1: Option<HgFileNodeId>, p2: Option<HgFileNodeId>, text: Seq<u8>) -> Seq<u8> {
    sha1_digest(hg_hash_input(p1, p2, text))
}

proof fn lemma_lex_lt_step(a: Seq<u8>, b: Seq<u8>, i: int)
    requires
        0 <= i < a.len(),
        a.len() == b.len(),
        a.subrange(i, a.len() as int)[0] == b.subrange(i, b.len() as int)[0],
    ensures
        lex_lt(a.subrange(i, a.len() as int), b.subrange(i, b.len() as int)) == lex_lt(
            a.subrange(i + 1, a.len() as int),
            b.subrange(i + 1, b.len() as int),
        ),
{
    assert(a.subrange(i, a.len() as int).drop_first() =~= a.subrange(i + 1, a.len() as int));
    assert(b.subrange(i, b.len() as int).drop_first() =~= b.subrange(i + 1, b.len() as int));
}

fn bytes_lt(a: &[u8], b: &[u8]) -> (r: bool)
    requires
        a@.len() == b@.len(),
    ensures
        r == lex_lt(a@, b@),
{
    let n = a.len();
    let mut i: usize = 0;
    assert(a@.subrange(0, n as int) =~= a@);
    assert(b@.subrange(0, n as int) =~= b@);
    while i < n
        invariant
            0 <= i <= n,
            n == a@.len(),
            n == b@.len(),
            lex_lt(a@, b@) == lex_lt(a@.subrange(i as int, n as int), b@.subrange(i as int, n as int)),
        decreases n - i,
    {
        if a[i] != b[i] {
            return a[i] < b[i];
        }
        proof {
            lemma_lex_lt_step(a@, b@, i as int);
        }
        i = i + 1;
    }
    false
}

fn append_bytes(out: &mut Vec<u8>, bytes: &[u8])
    ensures
        final(out)@ == old(out)@ + bytes@,
{
    let ghost start = out@;
    let mut i: usize = 0;
    while i < bytes.len()
        invariant
            0 <= i <= bytes@.len(),
            out@ == start + bytes@.subrange(0, i as int),
        decreases bytes@.len() - i,
    {
        out.push(bytes[i]);
        proof {
            assert(start + bytes@.subrange(0, i + 1) =~= start + bytes@.subrange(0, i as int) + seq![
                bytes@[i as int],
            ]);
        }
        i = i + 1;
    }
    assert(bytes@.subrange(0, bytes@.len() as int) =~= bytes@);
}

fn parent_hash(p: &Option<HgFileNodeId>) -> (r: [u8; 20])
    ensures
        r@ == parent_bytes(*p),
{
    match p {
        Some(id) => id.0.bytes,
        None => {
            let null = [0u8; 20];
            assert(null@ =~= parent_bytes(*p));
            null
        },
    }
}

/// Recomputes the legacy-compatible id of a file revision from its parents,
/// its metadata header and its content.
pub fn compute_hg_node_id(
    p1: &Option<HgFileNodeId>,
    p2: &Option<HgFileNodeId>,
    metadata: &[u8],
    content: &[u8],
) -> (r: HgFileNodeId)
    ensures
        r.id_bytes() == hg_node_id(*p1, *p2, metadata@ + content@),
{
    let a = parent_hash(p1);
    let b = parent_hash(p2);
    let mut input: Vec<u8> = Vec::new();
    if bytes_lt(&b, &a) {
        append_bytes(&mut input, &b);
        append_bytes(&mut input, &a);
    } else {
        append_bytes(&mut input, &a);
        append_bytes(&mut input, &b);
    }
    append_bytes(&mut input, metadata);
    append_bytes(&mut input, content);
    proof {
        let text = metadata@ + content@;
        assert(input@ =~= hg_hash_input(*p1, *p2, text));
    }
    HgFileNodeId(Hash20 { bytes: sha1_of(input.as_slice()) })
}

impl Node {
    /// Checks a fetched payload against the node's identity. Only file
    /// envelopes, whose id is a hash of their parents and text, can be
    /// checked; `content` is the envelope's content as the store returned
    /// it, `None` when the store did not have it.
    pub fn validate_hash<S>(&self, node_data: &NodeData<S>, content: Option<&[u8]>) -> (r: Result<
        (),
        ValidationError,
    >)
        ensures
            match (*self, *node_data) {
                (Node::HgFileEnvelope(id), NodeData::HgFileEnvelope(env)) => match content {
                    None => r == Err::<(), ValidationError>(
                        ValidationError::ContentMissing { content: env.content_id, filenode: id },
                    ),
                    Some(c) => {
                        let actual = hg_node_id(env.p1, env.p2, env.metadata@ + c@);
                        &&& (r is Ok <==> actual == id.id_bytes())
                        &&& r is Err ==> r->Err_0 is Mismatch && r->Err_0->Mismatch_expected
                            == id && r->Err_0->Mismatch_actual.id_bytes() == actual
                    },
                },
                _ => r == Err::<(), ValidationError>(ValidationError::Unsupported(self.kind())),
            },
    {
        match (self, node_data) {
            (Node::HgFileEnvelope(id), NodeData::HgFileEnvelope(env)) => match content {
                None => Err(ValidationError::ContentMissing { content: env.content_id, filenode: *id }),
                Some(c) => {
                    let actual = compute_hg_node_id(&env.p1, &env.p2, env.metadata.as_slice(), c);
                    if actual.0 == id.0 {
                        Ok(())
                    } else {
                        Err(ValidationError::Mismatch { expected: *id, actual })
                    }
                },
            },
            _ => Err(ValidationError::Unsupported(self.get_type())),
        }
    }
}

} // verus!
