//! Node identity: the key each kind of node carries, and the node type
//! that binds a kind to its key.
use crate::hash::{ascii_bytes, decode_hex, fingerprint_of, hex_chars, lemma_hex_round_trip};
use crate::ids::{
    Alias, AliasType, BlameId, ChangesetId, ContentId, DeletedManifestId, FastlogBatchId,
    FileUnodeId, FsnodeId, HgChangesetId, HgFileNodeId, HgManifestId, ManifestUnodeId,
    SkeletonManifestId, TypedId, prefixed_hex,
};
use crate::path::WrappedPath;
use crate::schema::{EdgeType, NodeType};
use vstd::prelude::*;
use vstd::utf8::{encode_utf8, is_ascii_chars, is_ascii_chars_encode_utf8};

verus! {

/// The key of a singleton kind.
#[derive(Clone, Copy, Debug, PartialEq, Eq, Hash)]
pub struct UnitKey();

/// A bookmark's name: ASCII text.
#[derive(Clone, Debug, PartialEq, Eq, Hash)]
pub struct BookmarkName {
    pub name: String,
}

impl BookmarkName {
    pub open spec fn wf(self) -> bool {
        is_ascii_chars(self.name@)
    }

    /// A bookmark name; `None` unless `s` is ASCII.
    pub fn new(s: &str) -> (r: Option<BookmarkName>)
        ensures
            r is Some <==> is_ascii_chars(s@),
            r is Some ==> r.unwrap().name@ == s@ && r.unwrap().wf(),
    {
        if s.is_ascii() {
            Some(BookmarkName { name: s.to_owned() })
        } else {
            None
        }
    }

    /// The name as text.
    pub fn to_string(&self) -> (r: String)
        ensures
            r@ == self.name@,
    {
        self.name.clone()
    }
}

/// An id scoped by the repository path it was reached at.
#[derive(Clone, Debug, PartialEq, Eq)]
pub struct PathKey<T> {
    pub id: T,
    pub path: WrappedPath,
}

impl<T> PathKey<T> {
    pub fn new(id: T, path: WrappedPath) -> (r: PathKey<T>)
        ensures
            r.id == id,
            r.path == path,
    {
        PathKey { id, path }
    }
}

/// The blob store key prefix of each alias kind.
pub open spec fn alias_prefix(t: AliasType) -> Seq<char> {
    match t {
        AliasType::GitSha1 => "alias.gitsha1."@,
        AliasType::Sha1 => "alias.sha1."@,
        AliasType::Sha256 => "alias.sha256."@,
    }
}

impl Alias {
    /// The key under which the blob store maps the alias to its content.
    pub fn blobstore_key(&self) -> (r: String)
        ensures
            r@ == alias_prefix(self.alias_type()) + hex_chars(self.hash_bytes()),
    {
        match self {
            Alias::GitSha1(h) => prefixed_hex("alias.gitsha1.", h.bytes.as_slice()),
            Alias::Sha1(h) => prefixed_hex("alias.sha1.", h.bytes.as_slice()),
            Alias::Sha256(h) => prefixed_hex("alias.sha256.", h.bytes.as_slice()),
        }
    }

    pub fn sampling_fingerprint(&self) -> (r: u64)
        ensures
            r == fingerprint_of(self.hash_bytes()),
    {
        match self {
            Alias::GitSha1(h) => h.sampling_fingerprint(),
            Alias::Sha1(h) => h.sampling_fingerprint(),
            Alias::Sha256(h) => h.sampling_fingerprint(),
        }
    }
}

#[derive(Clone, Copy, Debug, PartialEq, Eq, Hash)]
pub struct AliasKey(pub Alias);

/// A changeset id, with whether the legacy filenodes of the changeset are
/// known to be derived. The flag gates which edges are followed; it takes no
/// part in equality.
#[derive(Clone, Copy, Debug)]
pub struct ChangesetKey<T> {
    pub inner: T,
    pub filenode_known_derived: bool,
}

impl PartialEq for ChangesetKey<ChangesetId> {
    fn eq(&self, other: &ChangesetKey<ChangesetId>) -> (r: bool) {
        self.inner.0 == other.inner.0
    }
}

impl Eq for ChangesetKey<ChangesetId> {}

impl vstd::std_specs::cmp::PartialEqSpecImpl for ChangesetKey<ChangesetId> {
    open spec fn obeys_eq_spec() -> bool {
        true
    }

    open spec fn eq_spec(&self, other: &ChangesetKey<ChangesetId>) -> bool {
        self.inner.id_bytes() == other.inner.id_bytes()
    }
}

impl PartialEq for ChangesetKey<HgChangesetId> {
    fn eq(&self, other: &ChangesetKey<HgChangesetId>) -> (r: bool) {
        self.inner.0 == other.inner.0
    }
}

impl Eq for ChangesetKey<HgChangesetId> {}

impl vstd::std_specs::cmp::PartialEqSpecImpl for ChangesetKey<HgChangesetId> {
    open spec fn obeys_eq_spec() -> bool {
        true
    }

    open spec fn eq_spec(&self, other: &ChangesetKey<HgChangesetId>) -> bool {
        self.inner.id_bytes() == other.inner.id_bytes()
    }
}

impl<T: TypedId> ChangesetKey<T> {
    pub fn blobstore_key(&self) -> (r: String)
        ensures
            r@ == T::key_prefix() + hex_chars(self.inner.id_bytes()),
    {
        self.inner.blobstore_key()
    }

    pub fn sampling_fingerprint(&self) -> (r: u64)
        ensures
            r == fingerprint_of(self.inner.id_bytes()),
    {
        self.inner.sampling_fingerprint()
    }
}

/// Which unode-based derived data is available; some derived data needs
/// unodes as a precondition.
#[derive(Clone, Copy, Debug, PartialEq, Eq, Hash, Default, Structural)]
pub struct UnodeFlags {
    pub bits: u8,
}

impl UnodeFlags {
    /// No unode-based derived data.
    pub fn none() -> (r: UnodeFlags)
        ensures
            r.bits == 0,
    {
        UnodeFlags { bits: 0 }
    }

    /// Blame is derived.
    pub fn blame() -> (r: UnodeFlags)
        ensures
            r.bits == 1,
    {
        UnodeFlags { bits: 1 }
    }

    /// Fastlog is derived.
    pub fn fastlog() -> (r: UnodeFlags)
        ensures
            r.bits == 2,
    {
        UnodeFlags { bits: 2 }
    }

    pub open spec fn has_blame(self) -> bool {
        self.bits % 2 == 1
    }

    pub open spec fn has_fastlog(self) -> bool {
        (self.bits / 2) % 2 == 1
    }

    /// The flags set in either.
    pub fn union(self, other: UnodeFlags) -> (r: UnodeFlags)
        requires
            self.bits < 4,
            other.bits < 4,
        ensures
            r.bits < 4,
            r.has_blame() == (self.has_blame() || other.has_blame()),
            r.has_fastlog() == (self.has_fastlog() || other.has_fastlog()),
    {
        let blame: u8 = if self.bits % 2 == 1 || other.bits % 2 == 1 { 1 } else { 0 };
        let fastlog: u8 = if (self.bits / 2) % 2 == 1 || (other.bits / 2) % 2 == 1 { 2 } else { 0 };
        UnodeFlags { bits: blame + fastlog }
    }

    /// Whether every flag of `other` is set here.
    pub fn contains(self, other: UnodeFlags) -> (r: bool)
        ensures
            r == ((other.has_blame() ==> self.has_blame()) && (other.has_fastlog()
                ==> self.has_fastlog())),
    {
        (other.bits % 2 == 0 || self.bits % 2 == 1) && ((other.bits / 2) % 2 == 0 || (self.bits / 2)
            % 2 == 1)
    }
}

/// A unode id, with the unode-based derived data known to exist for it
/// (for example, unodes of non-public commits have no blame).
#[derive(Clone, Copy, Debug, PartialEq, Eq, Hash)]
pub struct UnodeKey<T> {
    pub inner: T,
    pub flags: UnodeFlags,
}

impl<T: TypedId> UnodeKey<T> {
    pub fn blobstore_key(&self) -> (r: String)
        ensures
            r@ == T::key_prefix() + hex_chars(self.inner.id_bytes()),
    {
        self.inner.blobstore_key()
    }

    pub fn sampling_fingerprint(&self) -> (r: u64)
        ensures
            r == fingerprint_of(self.inner.id_bytes()),
    {
        self.inner.sampling_fingerprint()
    }
}

/// The history batch of a unode; the unode's kind tells file from directory.
#[derive(Clone, Copy, Debug, PartialEq, Eq, Hash)]
pub struct FastlogKey<T> {
    pub inner: T,
}

impl<T: TypedId> FastlogKey<T> {
    pub fn new(inner: T) -> (r: FastlogKey<T>)
        ensures
            r.inner == inner,
    {
        FastlogKey { inner }
    }

    pub fn sampling_fingerprint(&self) -> (r: u64)
        ensures
            r == fingerprint_of(self.inner.id_bytes()),
    {
        self.inner.sampling_fingerprint()
    }

    pub fn blobstore_key(&self) -> (r: String)
        ensures
            r@ == "fastlogbatch."@ + T::key_prefix() + hex_chars(self.inner.id_bytes()),
    {
        let unode_key = self.inner.blobstore_key();
        let mut s = "fastlogbatch.".to_owned();
        s.append(unode_key.as_str());
        s
    }
}

/// Why a human-entered identifier was refused.
#[derive(Clone, Copy, Debug, PartialEq, Eq, Hash, Structural)]
pub enum ParseError {
    /// The kind has no human-enterable identifier.
    Unsupported(NodeType),
    /// The text is not an identifier of the kind.
    Malformed(NodeType),
}

/// A node of the graph: its kind, bound to the key that identifies it.
#[derive(Clone, Debug, PartialEq, Eq)]
pub enum Node {
    Root(UnitKey),
    Bookmark(BookmarkName),
    Changeset(ChangesetKey<ChangesetId>),
    BonsaiHgMapping(ChangesetKey<ChangesetId>),
    PhaseMapping(ChangesetId),
    PublishedBookmarks(UnitKey),
    HgBonsaiMapping(ChangesetKey<HgChangesetId>),
    HgChangeset(ChangesetKey<HgChangesetId>),
    HgChangesetViaBonsai(ChangesetKey<HgChangesetId>),
    HgManifest(PathKey<HgManifestId>),
    HgFileEnvelope(HgFileNodeId),
    HgFileNode(PathKey<HgFileNodeId>),
    HgManifestFileNode(PathKey<HgFileNodeId>),
    FileContent(ContentId),
    FileContentMetadata(ContentId),
    AliasContentMapping(AliasKey),
    Blame(BlameId),
    ChangesetInfo(ChangesetId),
    ChangesetInfoMapping(ChangesetId),
    DeletedManifest(DeletedManifestId),
    DeletedManifestMapping(ChangesetId),
    Fsnode(FsnodeId),
    FastlogBatch(FastlogBatchId),
    FastlogDir(FastlogKey<ManifestUnodeId>),
    FastlogFile(FastlogKey<FileUnodeId>),
    FsnodeMapping(ChangesetId),
    SkeletonManifest(SkeletonManifestId),
    SkeletonManifestMapping(ChangesetId),
    UnodeFile(UnodeKey<FileUnodeId>),
    UnodeManifest(UnodeKey<ManifestUnodeId>),
    UnodeMapping(ChangesetId),
}

impl Node {
    /// The kind of a node.
    pub open spec fn kind(self) -> NodeType {
        match self {
            Node::Root(_) => NodeType::Root,
            Node::Bookmark(_) => NodeType::Bookmark,
            Node::Changeset(_) => NodeType::Changeset,
            Node::BonsaiHgMapping(_) => NodeType::BonsaiHgMapping,
            Node::PhaseMapping(_) => NodeType::PhaseMapping,
            Node::PublishedBookmarks(_) => NodeType::PublishedBookmarks,
            Node::HgBonsaiMapping(_) => NodeType::HgBonsaiMapping,
            Node::HgChangeset(_) => NodeType::HgChangeset,
            Node::HgChangesetViaBonsai(_) => NodeType::HgChangesetViaBonsai,
            Node::HgManifest(_) => NodeType::HgManifest,
            Node::HgFileEnvelope(_) => NodeType::HgFileEnvelope,
            Node::HgFileNode(_) => NodeType::HgFileNode,
            Node::HgManifestFileNode(_) => NodeType::HgManifestFileNode,
            Node::FileContent(_) => NodeType::FileContent,
            Node::FileContentMetadata(_) => NodeType::FileContentMetadata,
            Node::AliasContentMapping(_) => NodeType::AliasContentMapping,
            Node::Blame(_) => NodeType::Blame,
            Node::ChangesetInfo(_) => NodeType::ChangesetInfo,
            Node::ChangesetInfoMapping(_) => NodeType::ChangesetInfoMapping,
            Node::DeletedManifest(_) => NodeType::DeletedManifest,
            Node::DeletedManifestMapping(_) => NodeType::DeletedManifestMapping,
            Node::Fsnode(_) => NodeType::Fsnode,
            Node::FastlogBatch(_) => NodeType::FastlogBatch,
            Node::FastlogDir(_) => NodeType::FastlogDir,
            Node::FastlogFile(_) => NodeType::FastlogFile,
            Node::FsnodeMapping(_) => NodeType::FsnodeMapping,
            Node::SkeletonManifest(_) => NodeType::SkeletonManifest,
            Node::SkeletonManifestMapping(_) => NodeType::SkeletonManifestMapping,
            Node::UnodeFile(_) => NodeType::UnodeFile,
            Node::UnodeManifest(_) => NodeType::UnodeManifest,
            Node::UnodeMapping(_) => NodeType::UnodeMapping,
        }
    }

    /// The kind of a node; a pure projection.
    pub fn get_type(&self) -> (r: NodeType)
        ensures
            r == self.kind(),
    {
        match self {
            Node::Root(_) => NodeType::Root,
            Node::Bookmark(_) => NodeType::Bookmark,
            Node::Changeset(_) => NodeType::Changeset,
            Node::BonsaiHgMapping(_) => NodeType::BonsaiHgMapping,
            Node::PhaseMapping(_) => NodeType::PhaseMapping,
            Node::PublishedBookmarks(_) => NodeType::PublishedBookmarks,
            Node::HgBonsaiMapping(_) => NodeType::HgBonsaiMapping,
            Node::HgChangeset(_) => NodeType::HgChangeset,
            Node::HgChangesetViaBonsai(_) => NodeType::HgChangesetViaBonsai,
            Node::HgManifest(_) => NodeType::HgManifest,
            Node::HgFileEnvelope(_) => NodeType::HgFileEnvelope,
            Node::HgFileNode(_) => NodeType::HgFileNode,
            Node::HgManifestFileNode(_) => NodeType::HgManifestFileNode,
            Node::FileContent(_) => NodeType::FileContent,
            Node::FileContentMetadata(_) => NodeType::FileContentMetadata,
            Node::AliasContentMapping(_) => NodeType::AliasContentMapping,
            Node::Blame(_) => NodeType::Blame,
            Node::ChangesetInfo(_) => NodeType::ChangesetInfo,
            Node::ChangesetInfoMapping(_) => NodeType::ChangesetInfoMapping,
            Node::DeletedManifest(_) => NodeType::DeletedManifest,
            Node::DeletedManifestMapping(_) => NodeType::DeletedManifestMapping,
            Node::Fsnode(_) => NodeType::Fsnode,
            Node::FastlogBatch(_) => NodeType::FastlogBatch,
            Node::FastlogDir(_) => NodeType::FastlogDir,
            Node::FastlogFile(_) => NodeType::FastlogFile,
            Node::FsnodeMapping(_) => NodeType::FsnodeMapping,
            Node::SkeletonManifest(_) => NodeType::SkeletonManifest,
            Node::SkeletonManifestMapping(_) => NodeType::SkeletonManifestMapping,
            Node::UnodeFile(_) => NodeType::UnodeFile,
            Node::UnodeManifest(_) => NodeType::UnodeManifest,
            Node::UnodeMapping(_) => NodeType::UnodeMapping,
        }
    }

    /// Validity of the key a node carries.
    pub open spec fn wf(self) -> bool {
        match self {
            Node::Bookmark(b) => b.wf(),
            _ => true,
        }
    }

    /// The key under which the backing store holds the node.
    pub open spec fn store_key(self) -> Seq<char> {
        match self {
            Node::Root(_) => "root"@,
            Node::Bookmark(b) => b.name@,
            Node::Changeset(c) => ChangesetId::key_prefix() + hex_chars(c.inner.id_bytes()),
            Node::BonsaiHgMapping(c) => ChangesetId::key_prefix() + hex_chars(c.inner.id_bytes()),
            Node::PhaseMapping(i) => ChangesetId::key_prefix() + hex_chars(i.id_bytes()),
            Node::PublishedBookmarks(_) => "published_bookmarks"@,
            Node::HgBonsaiMapping(c) => HgChangesetId::key_prefix() + hex_chars(c.inner.id_bytes()),
            Node::HgChangeset(c) => HgChangesetId::key_prefix() + hex_chars(c.inner.id_bytes()),
            Node::HgChangesetViaBonsai(c) => HgChangesetId::key_prefix() + hex_chars(c.inner.id_bytes()),
            Node::HgManifest(p) => HgManifestId::key_prefix() + hex_chars(p.id.id_bytes()),
            Node::HgFileEnvelope(i) => HgFileNodeId::key_prefix() + hex_chars(i.id_bytes()),
            Node::HgFileNode(p) => HgFileNodeId::key_prefix() + hex_chars(p.id.id_bytes()),
            Node::HgManifestFileNode(p) => HgFileNodeId::key_prefix() + hex_chars(p.id.id_bytes()),
            Node::FileContent(i) => ContentId::key_prefix() + hex_chars(i.id_bytes()),
            Node::FileContentMetadata(i) => ContentId::key_prefix() + hex_chars(i.id_bytes()),
            Node::AliasContentMapping(a) => alias_prefix(a.0.alias_type()) + hex_chars(a.0.hash_bytes()),
            Node::Blame(i) => BlameId::key_prefix() + hex_chars(i.id_bytes()),
            Node::ChangesetInfo(i) => ChangesetId::key_prefix() + hex_chars(i.id_bytes()),
            Node::ChangesetInfoMapping(i) => ChangesetId::key_prefix() + hex_chars(i.id_bytes()),
            Node::DeletedManifest(i) => DeletedManifestId::key_prefix() + hex_chars(i.id_bytes()),
            Node::DeletedManifestMapping(i) => ChangesetId::key_prefix() + hex_chars(i.id_bytes()),
            Node::Fsnode(i) => FsnodeId::key_prefix() + hex_chars(i.id_bytes()),
            Node::FastlogBatch(i) => FastlogBatchId::key_prefix() + hex_chars(i.id_bytes()),
            Node::FastlogDir(f) => "fastlogbatch."@ + ManifestUnodeId::key_prefix() + hex_chars(f.inner.id_bytes()),
            Node::FastlogFile(f) => "fastlogbatch."@ + FileUnodeId::key_prefix() + hex_chars(f.inner.id_bytes()),
            Node::FsnodeMapping(i) => ChangesetId::key_prefix() + hex_chars(i.id_bytes()),
            Node::SkeletonManifest(i) => SkeletonManifestId::key_prefix() + hex_chars(i.id_bytes()),
            Node::SkeletonManifestMapping(i) => ChangesetId::key_prefix() + hex_chars(i.id_bytes()),
            Node::UnodeFile(u) => FileUnodeId::key_prefix() + hex_chars(u.inner.id_bytes()),
            Node::UnodeManifest(u) => ManifestUnodeId::key_prefix() + hex_chars(u.inner.id_bytes()),
            Node::UnodeMapping(i) => ChangesetId::key_prefix() + hex_chars(i.id_bytes()),
        }
    }

    /// The key under which the backing store holds the node; also the
    /// node's name in statistics.
    pub fn stats_key(&self) -> (r: String)
        ensures
            r@ == self.store_key(),
    {
        proof {
            reveal_strlit("root");
            reveal_strlit("published_bookmarks");
        }
        match self {
            Node::Root(_) => "root".to_owned(),
            Node::Bookmark(b) => b.to_string(),
            Node::Changeset(c) => c.blobstore_key(),
            Node::BonsaiHgMapping(c) => c.blobstore_key(),
            Node::PhaseMapping(i) => i.blobstore_key(),
            Node::PublishedBookmarks(_) => "published_bookmarks".to_owned(),
            Node::HgBonsaiMapping(c) => c.blobstore_key(),
            Node::HgChangeset(c) => c.blobstore_key(),
            Node::HgChangesetViaBonsai(c) => c.blobstore_key(),
            Node::HgManifest(p) => p.id.blobstore_key(),
            Node::HgFileEnvelope(i) => i.blobstore_key(),
            Node::HgFileNode(p) => p.id.blobstore_key(),
            Node::HgManifestFileNode(p) => p.id.blobstore_key(),
            Node::FileContent(i) => i.blobstore_key(),
            Node::FileContentMetadata(i) => i.blobstore_key(),
            Node::AliasContentMapping(a) => a.0.blobstore_key(),
            Node::Blame(i) => i.blobstore_key(),
            Node::ChangesetInfo(i) => i.blobstore_key(),
            Node::ChangesetInfoMapping(i) => i.blobstore_key(),
            Node::DeletedManifest(i) => i.blobstore_key(),
            Node::DeletedManifestMapping(i) => i.blobstore_key(),
            Node::Fsnode(i) => i.blobstore_key(),
            Node::FastlogBatch(i) => i.blobstore_key(),
            Node::FastlogDir(f) => f.blobstore_key(),
            Node::FastlogFile(f) => f.blobstore_key(),
            Node::FsnodeMapping(i) => i.blobstore_key(),
            Node::SkeletonManifest(i) => i.blobstore_key(),
            Node::SkeletonManifestMapping(i) => i.blobstore_key(),
            Node::UnodeFile(u) => u.blobstore_key(),
            Node::UnodeManifest(u) => u.blobstore_key(),
            Node::UnodeMapping(i) => i.blobstore_key(),
        }
    }

    /// The path that is part of the node's identity, if any.
    pub open spec fn identity_path(self) -> Option<WrappedPath> {
        match self {
            Node::Root(_) => None,
            Node::Bookmark(_) => None,
            Node::Changeset(_) => None,
            Node::BonsaiHgMapping(_) => None,
            Node::PhaseMapping(_) => None,
            Node::PublishedBookmarks(_) => None,
            Node::HgBonsaiMapping(_) => None,
            Node::HgChangeset(_) => None,
            Node::HgChangesetViaBonsai(_) => None,
            Node::HgManifest(p) => Some(p.path),
            Node::HgFileEnvelope(_) => None,
            Node::HgFileNode(p) => Some(p.path),
            Node::HgManifestFileNode(p) => Some(p.path),
            Node::FileContent(_) => None,
            Node::FileContentMetadata(_) => None,
            Node::AliasContentMapping(_) => None,
            Node::Blame(_) => None,
            Node::ChangesetInfo(_) => None,
            Node::ChangesetInfoMapping(_) => None,
            Node::DeletedManifest(_) => None,
            Node::DeletedManifestMapping(_) => None,
            Node::Fsnode(_) => None,
            Node::FastlogBatch(_) => None,
            Node::FastlogDir(_) => None,
            Node::FastlogFile(_) => None,
            Node::FsnodeMapping(_) => None,
            Node::SkeletonManifest(_) => None,
            Node::SkeletonManifestMapping(_) => None,
            Node::UnodeFile(_) => None,
            Node::UnodeManifest(_) => None,
            Node::UnodeMapping(_) => None,
        }
    }

    /// The path that is part of the node's identity, if any.
    pub fn stats_path(&self) -> (r: Option<&WrappedPath>)
        ensures
            r is Some <==> self.identity_path() is Some,
            r is Some ==> *r.unwrap() == self.identity_path().unwrap(),
    {
        match self {
            Node::Root(_) => None,
            Node::Bookmark(_) => None,
            Node::Changeset(_) => None,
            Node::BonsaiHgMapping(_) => None,
            Node::PhaseMapping(_) => None,
            Node::PublishedBookmarks(_) => None,
            Node::HgBonsaiMapping(_) => None,
            Node::HgChangeset(_) => None,
            Node::HgChangesetViaBonsai(_) => None,
            Node::HgManifest(p) => Some(&p.path),
            Node::HgFileEnvelope(_) => None,
            Node::HgFileNode(p) => Some(&p.path),
            Node::HgManifestFileNode(p) => Some(&p.path),
            Node::FileContent(_) => None,
            Node::FileContentMetadata(_) => None,
            Node::AliasContentMapping(_) => None,
            Node::Blame(_) => None,
            Node::ChangesetInfo(_) => None,
            Node::ChangesetInfoMapping(_) => None,
            Node::DeletedManifest(_) => None,
            Node::DeletedManifestMapping(_) => None,
            Node::Fsnode(_) => None,
            Node::FastlogBatch(_) => None,
            Node::FastlogDir(_) => None,
            Node::FastlogFile(_) => None,
            Node::FsnodeMapping(_) => None,
            Node::SkeletonManifest(_) => None,
            Node::SkeletonManifestMapping(_) => None,
            Node::UnodeFile(_) => None,
            Node::UnodeManifest(_) => None,
            Node::UnodeMapping(_) => None,
        }
    }

    /// The sampling fingerprint; `None` for kinds with no content identity.
    pub open spec fn fingerprint(self) -> Option<u64> {
        match self {
            Node::Root(_) => None,
            Node::Bookmark(_) => None,
            Node::Changeset(c) => Some(fingerprint_of(c.inner.id_bytes())),
            Node::BonsaiHgMapping(c) => Some(fingerprint_of(c.inner.id_bytes())),
            Node::PhaseMapping(i) => Some(fingerprint_of(i.id_bytes())),
            Node::PublishedBookmarks(_) => None,
            Node::HgBonsaiMapping(c) => Some(fingerprint_of(c.inner.id_bytes())),
            Node::HgChangeset(c) => Some(fingerprint_of(c.inner.id_bytes())),
            Node::HgChangesetViaBonsai(c) => Some(fingerprint_of(c.inner.id_bytes())),
            Node::HgManifest(p) => Some(fingerprint_of(p.id.id_bytes())),
            Node::HgFileEnvelope(i) => Some(fingerprint_of(i.id_bytes())),
            Node::HgFileNode(p) => Some(fingerprint_of(p.id.id_bytes())),
            Node::HgManifestFileNode(p) => Some(fingerprint_of(p.id.id_bytes())),
            Node::FileContent(i) => Some(fingerprint_of(i.id_bytes())),
            Node::FileContentMetadata(i) => Some(fingerprint_of(i.id_bytes())),
            Node::AliasContentMapping(a) => Some(fingerprint_of(a.0.hash_bytes())),
            Node::Blame(i) => Some(fingerprint_of(i.id_bytes())),
            Node::ChangesetInfo(i) => Some(fingerprint_of(i.id_bytes())),
            Node::ChangesetInfoMapping(i) => Some(fingerprint_of(i.id_bytes())),
            Node::DeletedManifest(i) => Some(fingerprint_of(i.id_bytes())),
            Node::DeletedManifestMapping(i) => Some(fingerprint_of(i.id_bytes())),
            Node::Fsnode(i) => Some(fingerprint_of(i.id_bytes())),
            Node::FastlogBatch(i) => Some(fingerprint_of(i.id_bytes())),
            Node::FastlogDir(f) => Some(fingerprint_of(f.inner.id_bytes())),
            Node::FastlogFile(f) => Some(fingerprint_of(f.inner.id_bytes())),
            Node::FsnodeMapping(i) => Some(fingerprint_of(i.id_bytes())),
            Node::SkeletonManifest(i) => Some(fingerprint_of(i.id_bytes())),
            Node::SkeletonManifestMapping(i) => Some(fingerprint_of(i.id_bytes())),
            Node::UnodeFile(f) => Some(fingerprint_of(f.inner.id_bytes())),
            Node::UnodeManifest(f) => Some(fingerprint_of(f.inner.id_bytes())),
            Node::UnodeMapping(i) => Some(fingerprint_of(i.id_bytes())),
        }
    }

    /// The sampling fingerprint, taken from the key's hash; `None` means
    /// the node is not hash based.
    pub fn sampling_fingerprint(&self) -> (r: Option<u64>)
        ensures
            r == self.fingerprint(),
    {
        match self {
            Node::Root(_) => None,
            Node::Bookmark(_) => None,
            Node::Changeset(c) => Some(c.sampling_fingerprint()),
            Node::BonsaiHgMapping(c) => Some(c.sampling_fingerprint()),
            Node::PhaseMapping(i) => Some(i.sampling_fingerprint()),
            Node::PublishedBookmarks(_) => None,
            Node::HgBonsaiMapping(c) => Some(c.sampling_fingerprint()),
            Node::HgChangeset(c) => Some(c.sampling_fingerprint()),
            Node::HgChangesetViaBonsai(c) => Some(c.sampling_fingerprint()),
            Node::HgManifest(p) => Some(p.id.sampling_fingerprint()),
            Node::HgFileEnvelope(i) => Some(i.sampling_fingerprint()),
            Node::HgFileNode(p) => Some(p.id.sampling_fingerprint()),
            Node::HgManifestFileNode(p) => Some(p.id.sampling_fingerprint()),
            Node::FileContent(i) => Some(i.sampling_fingerprint()),
            Node::FileContentMetadata(i) => Some(i.sampling_fingerprint()),
            Node::AliasContentMapping(a) => Some(a.0.sampling_fingerprint()),
            Node::Blame(i) => Some(i.sampling_fingerprint()),
            Node::ChangesetInfo(i) => Some(i.sampling_fingerprint()),
            Node::ChangesetInfoMapping(i) => Some(i.sampling_fingerprint()),
            Node::DeletedManifest(i) => Some(i.sampling_fingerprint()),
            Node::DeletedManifestMapping(i) => Some(i.sampling_fingerprint()),
            Node::Fsnode(i) => Some(i.sampling_fingerprint()),
            Node::FastlogBatch(i) => Some(i.sampling_fingerprint()),
            Node::FastlogDir(f) => Some(f.sampling_fingerprint()),
            Node::FastlogFile(f) => Some(f.sampling_fingerprint()),
            Node::FsnodeMapping(i) => Some(i.sampling_fingerprint()),
            Node::SkeletonManifest(i) => Some(i.sampling_fingerprint()),
            Node::SkeletonManifestMapping(i) => Some(i.sampling_fingerprint()),
            Node::UnodeFile(f) => Some(f.sampling_fingerprint()),
            Node::UnodeManifest(f) => Some(f.sampling_fingerprint()),
            Node::UnodeMapping(i) => Some(i.sampling_fingerprint()),
        }
    }

    /// Node identity: same kind and same key. The flag of a changeset key
    /// takes no part in it.
    pub open spec fn same_as(self, other: Node) -> bool {
        match self {
            Node::Root(_) => other is Root,
            Node::Bookmark(b) => other is Bookmark && other->Bookmark_0.name@ == b.name@,
            Node::Changeset(c) => other is Changeset && other->Changeset_0.inner.id_bytes() == c.inner.id_bytes(),
            Node::BonsaiHgMapping(c) => other is BonsaiHgMapping && other->BonsaiHgMapping_0.inner.id_bytes() == c.inner.id_bytes(),
            Node::PhaseMapping(i) => other is PhaseMapping && other->PhaseMapping_0.id_bytes() == i.id_bytes(),
            Node::PublishedBookmarks(_) => other is PublishedBookmarks,
            Node::HgBonsaiMapping(c) => other is HgBonsaiMapping && other->HgBonsaiMapping_0.inner.id_bytes() == c.inner.id_bytes(),
            Node::HgChangeset(c) => other is HgChangeset && other->HgChangeset_0.inner.id_bytes() == c.inner.id_bytes(),
            Node::HgChangesetViaBonsai(c) => other is HgChangesetViaBonsai && other->HgChangesetViaBonsai_0.inner.id_bytes() == c.inner.id_bytes(),
            Node::HgManifest(p) => other is HgManifest && other->HgManifest_0.id.id_bytes() == p.id.id_bytes() && other->HgManifest_0.path@ == p.path@,
            Node::HgFileEnvelope(i) => other is HgFileEnvelope && other->HgFileEnvelope_0.id_bytes() == i.id_bytes(),
            Node::HgFileNode(p) => other is HgFileNode && other->HgFileNode_0.id.id_bytes() == p.id.id_bytes() && other->HgFileNode_0.path@ == p.path@,
            Node::HgManifestFileNode(p) => other is HgManifestFileNode && other->HgManifestFileNode_0.id.id_bytes() == p.id.id_bytes() && other->HgManifestFileNode_0.path@ == p.path@,
            Node::FileContent(i) => other is FileContent && other->FileContent_0.id_bytes() == i.id_bytes(),
            Node::FileContentMetadata(i) => other is FileContentMetadata && other->FileContentMetadata_0.id_bytes() == i.id_bytes(),
            Node::AliasContentMapping(a) => other is AliasContentMapping && other->AliasContentMapping_0.0.alias_type() == a.0.alias_type() && other->AliasContentMapping_0.0.hash_bytes() == a.0.hash_bytes(),
            Node::Blame(i) => other is Blame && other->Blame_0.id_bytes() == i.id_bytes(),
            Node::ChangesetInfo(i) => other is ChangesetInfo && other->ChangesetInfo_0.id_bytes() == i.id_bytes(),
            Node::ChangesetInfoMapping(i) => other is ChangesetInfoMapping && other->ChangesetInfoMapping_0.id_bytes() == i.id_bytes(),
            Node::DeletedManifest(i) => other is DeletedManifest && other->DeletedManifest_0.id_bytes() == i.id_bytes(),
            Node::DeletedManifestMapping(i) => other is DeletedManifestMapping && other->DeletedManifestMapping_0.id_bytes() == i.id_bytes(),
            Node::Fsnode(i) => other is Fsnode && other->Fsnode_0.id_bytes() == i.id_bytes(),
            Node::FastlogBatch(i) => other is FastlogBatch && other->FastlogBatch_0.id_bytes() == i.id_bytes(),
            Node::FastlogDir(f) => other is FastlogDir && other->FastlogDir_0.inner.id_bytes() == f.inner.id_bytes(),
            Node::FastlogFile(f) => other is FastlogFile && other->FastlogFile_0.inner.id_bytes() == f.inner.id_bytes(),
            Node::FsnodeMapping(i) => other is FsnodeMapping && other->FsnodeMapping_0.id_bytes() == i.id_bytes(),
            Node::SkeletonManifest(i) => other is SkeletonManifest && other->SkeletonManifest_0.id_bytes() == i.id_bytes(),
            Node::SkeletonManifestMapping(i) => other is SkeletonManifestMapping && other->SkeletonManifestMapping_0.id_bytes() == i.id_bytes(),
            Node::UnodeFile(u) => other is UnodeFile && other->UnodeFile_0.inner.id_bytes() == u.inner.id_bytes() && other->UnodeFile_0.flags == u.flags,
            Node::UnodeManifest(u) => other is UnodeManifest && other->UnodeManifest_0.inner.id_bytes() == u.inner.id_bytes() && other->UnodeManifest_0.flags == u.flags,
            Node::UnodeMapping(i) => other is UnodeMapping && other->UnodeMapping_0.id_bytes() == i.id_bytes(),
        }
    }

    /// The human-enterable form of the key, for kinds that have one.
    pub open spec fn key_text(self) -> Seq<char> {
        match self {
            Node::Root(_) => Seq::empty(),
            Node::Bookmark(b) => b.name@,
            Node::Changeset(c) => hex_chars(c.inner.id_bytes()),
            Node::BonsaiHgMapping(c) => hex_chars(c.inner.id_bytes()),
            Node::PhaseMapping(i) => hex_chars(i.id_bytes()),
            Node::PublishedBookmarks(_) => Seq::empty(),
            Node::HgBonsaiMapping(c) => hex_chars(c.inner.id_bytes()),
            Node::HgChangeset(c) => hex_chars(c.inner.id_bytes()),
            Node::HgChangesetViaBonsai(c) => hex_chars(c.inner.id_bytes()),
            Node::HgManifest(_) => Seq::empty(),
            Node::HgFileEnvelope(i) => hex_chars(i.id_bytes()),
            Node::HgFileNode(_) => Seq::empty(),
            Node::HgManifestFileNode(_) => Seq::empty(),
            Node::FileContent(i) => hex_chars(i.id_bytes()),
            Node::FileContentMetadata(i) => hex_chars(i.id_bytes()),
            Node::AliasContentMapping(_) => Seq::empty(),
            Node::Blame(i) => hex_chars(i.id_bytes()),
            Node::ChangesetInfo(i) => hex_chars(i.id_bytes()),
            Node::ChangesetInfoMapping(i) => hex_chars(i.id_bytes()),
            Node::DeletedManifest(i) => hex_chars(i.id_bytes()),
            Node::DeletedManifestMapping(i) => hex_chars(i.id_bytes()),
            Node::Fsnode(i) => hex_chars(i.id_bytes()),
            Node::FastlogBatch(i) => hex_chars(i.id_bytes()),
            Node::FastlogDir(f) => hex_chars(f.inner.id_bytes()),
            Node::FastlogFile(f) => hex_chars(f.inner.id_bytes()),
            Node::FsnodeMapping(i) => hex_chars(i.id_bytes()),
            Node::SkeletonManifest(i) => hex_chars(i.id_bytes()),
            Node::SkeletonManifestMapping(i) => hex_chars(i.id_bytes()),
            Node::UnodeFile(_) => Seq::empty(),
            Node::UnodeManifest(_) => Seq::empty(),
            Node::UnodeMapping(i) => hex_chars(i.id_bytes()),
        }
    }

    /// The human-enterable form of the key; `None` for kinds without one.
    pub fn key_string(&self) -> (r: Option<String>)
        ensures
            r is Some <==> self.kind().parseable(),
            r is Some ==> r.unwrap()@ == self.key_text(),
    {
        match self {
            Node::Root(_) => None,
            Node::Bookmark(b) => Some(b.to_string()),
            Node::Changeset(c) => Some(c.inner.to_hex()),
            Node::BonsaiHgMapping(c) => Some(c.inner.to_hex()),
            Node::PhaseMapping(i) => Some(i.to_hex()),
            Node::PublishedBookmarks(_) => None,
            Node::HgBonsaiMapping(c) => Some(c.inner.to_hex()),
            Node::HgChangeset(c) => Some(c.inner.to_hex()),
            Node::HgChangesetViaBonsai(c) => Some(c.inner.to_hex()),
            Node::HgManifest(_) => None,
            Node::HgFileEnvelope(i) => Some(i.to_hex()),
            Node::HgFileNode(_) => None,
            Node::HgManifestFileNode(_) => None,
            Node::FileContent(i) => Some(i.to_hex()),
            Node::FileContentMetadata(i) => Some(i.to_hex()),
            Node::AliasContentMapping(_) => None,
            Node::Blame(i) => Some(i.to_hex()),
            Node::ChangesetInfo(i) => Some(i.to_hex()),
            Node::ChangesetInfoMapping(i) => Some(i.to_hex()),
            Node::DeletedManifest(i) => Some(i.to_hex()),
            Node::DeletedManifestMapping(i) => Some(i.to_hex()),
            Node::Fsnode(i) => Some(i.to_hex()),
            Node::FastlogBatch(i) => Some(i.to_hex()),
            Node::FastlogDir(f) => Some(f.inner.to_hex()),
            Node::FastlogFile(f) => Some(f.inner.to_hex()),
            Node::FsnodeMapping(i) => Some(i.to_hex()),
            Node::SkeletonManifest(i) => Some(i.to_hex()),
            Node::SkeletonManifestMapping(i) => Some(i.to_hex()),
            Node::UnodeFile(_) => None,
            Node::UnodeManifest(_) => None,
            Node::UnodeMapping(i) => Some(i.to_hex()),
        }
    }

    /// Whether the node is what parsing `s` yields.
    pub open spec fn parses_from(self, s: Seq<char>) -> bool {
        match self {
            Node::Root(_) => false,
            Node::Bookmark(b) => b.name@ == s,
            Node::Changeset(c) => decode_hex(encode_utf8(s), 32) == Some(c.inner.id_bytes()) && !c.filenode_known_derived,
            Node::BonsaiHgMapping(c) => decode_hex(encode_utf8(s), 32) == Some(c.inner.id_bytes()) && !c.filenode_known_derived,
            Node::PhaseMapping(i) => decode_hex(encode_utf8(s), 32) == Some(i.id_bytes()),
            Node::PublishedBookmarks(_) => false,
            Node::HgBonsaiMapping(c) => decode_hex(encode_utf8(s), 20) == Some(c.inner.id_bytes()) && !c.filenode_known_derived,
            Node::HgChangeset(c) => decode_hex(encode_utf8(s), 20) == Some(c.inner.id_bytes()) && !c.filenode_known_derived,
            Node::HgChangesetViaBonsai(c) => decode_hex(encode_utf8(s), 20) == Some(c.inner.id_bytes()) && !c.filenode_known_derived,
            Node::HgManifest(_) => false,
            Node::HgFileEnvelope(i) => decode_hex(encode_utf8(s), 20) == Some(i.id_bytes()),
            Node::HgFileNode(_) => false,
            Node::HgManifestFileNode(_) => false,
            Node::FileContent(i) => decode_hex(encode_utf8(s), 32) == Some(i.id_bytes()),
            Node::FileContentMetadata(i) => decode_hex(encode_utf8(s), 32) == Some(i.id_bytes()),
            Node::AliasContentMapping(_) => false,
            Node::Blame(i) => decode_hex(encode_utf8(s), 32) == Some(i.id_bytes()),
            Node::ChangesetInfo(i) => decode_hex(encode_utf8(s), 32) == Some(i.id_bytes()),
            Node::ChangesetInfoMapping(i) => decode_hex(encode_utf8(s), 32) == Some(i.id_bytes()),
            Node::DeletedManifest(i) => decode_hex(encode_utf8(s), 32) == Some(i.id_bytes()),
            Node::DeletedManifestMapping(i) => decode_hex(encode_utf8(s), 32) == Some(i.id_bytes()),
            Node::Fsnode(i) => decode_hex(encode_utf8(s), 32) == Some(i.id_bytes()),
            Node::FastlogBatch(i) => decode_hex(encode_utf8(s), 32) == Some(i.id_bytes()),
            Node::FastlogDir(f) => decode_hex(encode_utf8(s), 32) == Some(f.inner.id_bytes()),
            Node::FastlogFile(f) => decode_hex(encode_utf8(s), 32) == Some(f.inner.id_bytes()),
            Node::FsnodeMapping(i) => decode_hex(encode_utf8(s), 32) == Some(i.id_bytes()),
            Node::SkeletonManifest(i) => decode_hex(encode_utf8(s), 32) == Some(i.id_bytes()),
            Node::SkeletonManifestMapping(i) => decode_hex(encode_utf8(s), 32) == Some(i.id_bytes()),
            Node::UnodeFile(_) => false,
            Node::UnodeManifest(_) => false,
            Node::UnodeMapping(i) => decode_hex(encode_utf8(s), 32) == Some(i.id_bytes()),
        }
    }
}

impl NodeType {
    /// Whether nodes of this kind have a human-enterable identifier.
    pub open spec fn parseable(self) -> bool {
        match self {
            NodeType::Root => false,
            NodeType::Bookmark => true,
            NodeType::Changeset => true,
            NodeType::BonsaiHgMapping => true,
            NodeType::PhaseMapping => true,
            NodeType::PublishedBookmarks => false,
            NodeType::HgBonsaiMapping => true,
            NodeType::HgChangeset => true,
            NodeType::HgChangesetViaBonsai => true,
            NodeType::HgManifest => false,
            NodeType::HgFileEnvelope => true,
            NodeType::HgFileNode => false,
            NodeType::HgManifestFileNode => false,
            NodeType::FileContent => true,
            NodeType::FileContentMetadata => true,
            NodeType::AliasContentMapping => false,
            NodeType::Blame => true,
            NodeType::ChangesetInfo => true,
            NodeType::ChangesetInfoMapping => true,
            NodeType::DeletedManifest => true,
            NodeType::DeletedManifestMapping => true,
            NodeType::Fsnode => true,
            NodeType::FastlogBatch => true,
            NodeType::FastlogDir => true,
            NodeType::FastlogFile => true,
            NodeType::FsnodeMapping => true,
            NodeType::SkeletonManifest => true,
            NodeType::SkeletonManifestMapping => true,
            NodeType::UnodeFile => false,
            NodeType::UnodeManifest => false,
            NodeType::UnodeMapping => true,
        }
    }

    /// Whether `s` is a well-formed identifier for this kind.
    pub open spec fn accepts(self, s: Seq<char>) -> bool {
        match self {
            NodeType::Root => false,
            NodeType::Bookmark => is_ascii_chars(s),
            NodeType::Changeset => decode_hex(encode_utf8(s), 32) is Some,
            NodeType::BonsaiHgMapping => decode_hex(encode_utf8(s), 32) is Some,
            NodeType::PhaseMapping => decode_hex(encode_utf8(s), 32) is Some,
            NodeType::PublishedBookmarks => false,
            NodeType::HgBonsaiMapping => decode_hex(encode_utf8(s), 20) is Some,
            NodeType::HgChangeset => decode_hex(encode_utf8(s), 20) is Some,
            NodeType::HgChangesetViaBonsai => decode_hex(encode_utf8(s), 20) is Some,
            NodeType::HgManifest => false,
            NodeType::HgFileEnvelope => decode_hex(encode_utf8(s), 20) is Some,
            NodeType::HgFileNode => false,
            NodeType::HgManifestFileNode => false,
            NodeType::FileContent => decode_hex(encode_utf8(s), 32) is Some,
            NodeType::FileContentMetadata => decode_hex(encode_utf8(s), 32) is Some,
            NodeType::AliasContentMapping => false,
            NodeType::Blame => decode_hex(encode_utf8(s), 32) is Some,
            NodeType::ChangesetInfo => decode_hex(encode_utf8(s), 32) is Some,
            NodeType::ChangesetInfoMapping => decode_hex(encode_utf8(s), 32) is Some,
            NodeType::DeletedManifest => decode_hex(encode_utf8(s), 32) is Some,
            NodeType::DeletedManifestMapping => decode_hex(encode_utf8(s), 32) is Some,
            NodeType::Fsnode => decode_hex(encode_utf8(s), 32) is Some,
            NodeType::FastlogBatch => decode_hex(encode_utf8(s), 32) is Some,
            NodeType::FastlogDir => decode_hex(encode_utf8(s), 32) is Some,
            NodeType::FastlogFile => decode_hex(encode_utf8(s), 32) is Some,
            NodeType::FsnodeMapping => decode_hex(encode_utf8(s), 32) is Some,
            NodeType::SkeletonManifest => decode_hex(encode_utf8(s), 32) is Some,
            NodeType::SkeletonManifestMapping => decode_hex(encode_utf8(s), 32) is Some,
            NodeType::UnodeFile => false,
            NodeType::UnodeManifest => false,
            NodeType::UnodeMapping => decode_hex(encode_utf8(s), 32) is Some,
        }
    }

    /// Parses a human-entered identifier of a node of this kind.
    pub fn parse_node(&self, s: &str) -> (r: Result<Node, ParseError>)
        ensures
            !self.parseable() ==> r == Err::<Node, ParseError>(ParseError::Unsupported(*self)),
            self.parseable() && !self.accepts(s@) ==> r == Err::<Node, ParseError>(
                ParseError::Malformed(*self),
            ),
            self.parseable() && self.accepts(s@) ==> r is Ok && r.unwrap().kind() == *self
                && r.unwrap().parses_from(s@) && r.unwrap().wf(),
    {
        match self {
            NodeType::Root => Err(ParseError::Unsupported(*self)),
            NodeType::Bookmark => match BookmarkName::new(s) {
                Some(b) => Ok(Node::Bookmark(b)),
                None => Err(ParseError::Malformed(*self)),
            },
            NodeType::Changeset => match ChangesetId::from_hex(s) {
                Some(id) => Ok(Node::Changeset(ChangesetKey { inner: id, filenode_known_derived: false })),
                None => Err(ParseError::Malformed(*self)),
            },
            NodeType::BonsaiHgMapping => match ChangesetId::from_hex(s) {
                Some(id) => Ok(Node::BonsaiHgMapping(ChangesetKey { inner: id, filenode_known_derived: false })),
                None => Err(ParseError::Malformed(*self)),
            },
            NodeType::PhaseMapping => match ChangesetId::from_hex(s) {
                Some(id) => Ok(Node::PhaseMapping(id)),
                None => Err(ParseError::Malformed(*self)),
            },
            NodeType::PublishedBookmarks => Err(ParseError::Unsupported(*self)),
            NodeType::HgBonsaiMapping => match HgChangesetId::from_hex(s) {
                Some(id) => Ok(Node::HgBonsaiMapping(ChangesetKey { inner: id, filenode_known_derived: false })),
                None => Err(ParseError::Malformed(*self)),
            },
            NodeType::HgChangeset => match HgChangesetId::from_hex(s) {
                Some(id) => Ok(Node::HgChangeset(ChangesetKey { inner: id, filenode_known_derived: false })),
                None => Err(ParseError::Malformed(*self)),
            },
            NodeType::HgChangesetViaBonsai => match HgChangesetId::from_hex(s) {
                Some(id) => Ok(Node::HgChangesetViaBonsai(ChangesetKey { inner: id, filenode_known_derived: false })),
                None => Err(ParseError::Malformed(*self)),
            },
            NodeType::HgManifest => Err(ParseError::Unsupported(*self)),
            NodeType::HgFileEnvelope => match HgFileNodeId::from_hex(s) {
                Some(id) => Ok(Node::HgFileEnvelope(id)),
                None => Err(ParseError::Malformed(*self)),
            },
            NodeType::HgFileNode => Err(ParseError::Unsupported(*self)),
            NodeType::HgManifestFileNode => Err(ParseError::Unsupported(*self)),
            NodeType::FileContent => match ContentId::from_hex(s) {
                Some(id) => Ok(Node::FileContent(id)),
                None => Err(ParseError::Malformed(*self)),
            },
            NodeType::FileContentMetadata => match ContentId::from_hex(s) {
                Some(id) => Ok(Node::FileContentMetadata(id)),
                None => Err(ParseError::Malformed(*self)),
            },
            NodeType::AliasContentMapping => Err(ParseError::Unsupported(*self)),
            NodeType::Blame => match BlameId::from_hex(s) {
                Some(id) => Ok(Node::Blame(id)),
                None => Err(ParseError::Malformed(*self)),
            },
            NodeType::ChangesetInfo => match ChangesetId::from_hex(s) {
                Some(id) => Ok(Node::ChangesetInfo(id)),
                None => Err(ParseError::Malformed(*self)),
            },
            NodeType::ChangesetInfoMapping => match ChangesetId::from_hex(s) {
                Some(id) => Ok(Node::ChangesetInfoMapping(id)),
                None => Err(ParseError::Malformed(*self)),
            },
            NodeType::DeletedManifest => match DeletedManifestId::from_hex(s) {
                Some(id) => Ok(Node::DeletedManifest(id)),
                None => Err(ParseError::Malformed(*self)),
            },
            NodeType::DeletedManifestMapping => match ChangesetId::from_hex(s) {
                Some(id) => Ok(Node::DeletedManifestMapping(id)),
                None => Err(ParseError::Malformed(*self)),
            },
            NodeType::Fsnode => match FsnodeId::from_hex(s) {
                Some(id) => Ok(Node::Fsnode(id)),
                None => Err(ParseError::Malformed(*self)),
            },
            NodeType::FastlogBatch => match FastlogBatchId::from_hex(s) {
                Some(id) => Ok(Node::FastlogBatch(id)),
                None => Err(ParseError::Malformed(*self)),
            },
            NodeType::FastlogDir => match ManifestUnodeId::from_hex(s) {
                Some(id) => Ok(Node::FastlogDir(FastlogKey::new(id))),
                None => Err(ParseError::Malformed(*self)),
            },
            NodeType::FastlogFile => match FileUnodeId::from_hex(s) {
                Some(id) => Ok(Node::FastlogFile(FastlogKey::new(id))),
                None => Err(ParseError::Malformed(*self)),
            },
            NodeType::FsnodeMapping => match ChangesetId::from_hex(s) {
                Some(id) => Ok(Node::FsnodeMapping(id)),
                None => Err(ParseError::Malformed(*self)),
            },
            NodeType::SkeletonManifest => match SkeletonManifestId::from_hex(s) {
                Some(id) => Ok(Node::SkeletonManifest(id)),
                None => Err(ParseError::Malformed(*self)),
            },
            NodeType::SkeletonManifestMapping => match ChangesetId::from_hex(s) {
                Some(id) => Ok(Node::SkeletonManifestMapping(id)),
                None => Err(ParseError::Malformed(*self)),
            },
            NodeType::UnodeFile => Err(ParseError::Unsupported(*self)),
            NodeType::UnodeManifest => Err(ParseError::Unsupported(*self)),
            NodeType::UnodeMapping => match ChangesetId::from_hex(s) {
                Some(id) => Ok(Node::UnodeMapping(id)),
                None => Err(ParseError::Malformed(*self)),
            },
        }
    }
}

proof fn lemma_hex_text(b: Seq<u8>)
    ensures
        decode_hex(encode_utf8(hex_chars(b)), b.len()) == Some(b),
{
    lemma_hex_round_trip(b);
    is_ascii_chars_encode_utf8(hex_chars(b));
    assert(encode_utf8(hex_chars(b)) =~= ascii_bytes(hex_chars(b)));
}

/// Parsing the human-enterable form of a node's key gives the node back:
/// the form is accepted by the node's kind, and whatever node parses from
/// it is the same node.
pub proof fn lemma_parse_round_trip(n: Node, m: Node)
    requires
        n.wf(),
        n.kind().parseable(),
        m.kind() == n.kind(),
        m.parses_from(n.key_text()),
    ensures
        n.kind().accepts(n.key_text()),
        m.same_as(n),
{
    match n {
        Node::Changeset(c) => lemma_hex_text(c.inner.id_bytes()),
        Node::BonsaiHgMapping(c) => lemma_hex_text(c.inner.id_bytes()),
        Node::PhaseMapping(i) => lemma_hex_text(i.id_bytes()),
        Node::HgBonsaiMapping(c) => lemma_hex_text(c.inner.id_bytes()),
        Node::HgChangeset(c) => lemma_hex_text(c.inner.id_bytes()),
        Node::HgChangesetViaBonsai(c) => lemma_hex_text(c.inner.id_bytes()),
        Node::HgFileEnvelope(i) => lemma_hex_text(i.id_bytes()),
        Node::FileContent(i) => lemma_hex_text(i.id_bytes()),
        Node::FileContentMetadata(i) => lemma_hex_text(i.id_bytes()),
        Node::Blame(i) => lemma_hex_text(i.id_bytes()),
        Node::ChangesetInfo(i) => lemma_hex_text(i.id_bytes()),
        Node::ChangesetInfoMapping(i) => lemma_hex_text(i.id_bytes()),
        Node::DeletedManifest(i) => lemma_hex_text(i.id_bytes()),
        Node::DeletedManifestMapping(i) => lemma_hex_text(i.id_bytes()),
        Node::Fsnode(i) => lemma_hex_text(i.id_bytes()),
        Node::FastlogBatch(i) => lemma_hex_text(i.id_bytes()),
        Node::FastlogDir(f) => lemma_hex_text(f.inner.id_bytes()),
        Node::FastlogFile(f) => lemma_hex_text(f.inner.id_bytes()),
        Node::FsnodeMapping(i) => lemma_hex_text(i.id_bytes()),
        Node::SkeletonManifest(i) => lemma_hex_text(i.id_bytes()),
        Node::SkeletonManifestMapping(i) => lemma_hex_text(i.id_bytes()),
        Node::UnodeMapping(i) => lemma_hex_text(i.id_bytes()),
        _ => {},
    }
}

impl NodeType {
    /// Whether nodes of this kind have a content identity (a hash).
    pub open spec fn has_content_identity(self) -> bool {
        !(self is Root || self is Bookmark || self is PublishedBookmarks)
    }
}

/// The sampling fingerprint is `None` exactly for the kinds with no content
/// identity, and the same node always has the same fingerprint.
pub proof fn lemma_fingerprint_follows_identity(a: Node, b: Node)
    ensures
        a.fingerprint() is None <==> !a.kind().has_content_identity(),
        a.same_as(b) ==> a.fingerprint() == b.fingerprint(),
{
}

/// The kind of a node is a function of the node: the same node always has
/// the same kind.
pub proof fn lemma_kind_follows_identity(a: Node, b: Node)
    requires
        a.same_as(b),
    ensures
        a.kind() == b.kind(),
{
}

impl Node {
    /// Whether the walk may follow `edge` out of this node: the blame and
    /// fastlog edges of a unode only where its flags say that data exists.
    pub open spec fn enables(self, edge: EdgeType) -> bool {
        match (self, edge) {
            (Node::UnodeFile(k), EdgeType::UnodeFileToBlame) => k.flags.has_blame(),
            (Node::UnodeFile(k), EdgeType::UnodeFileToFastlogFile) => k.flags.has_fastlog(),
            (Node::UnodeManifest(k), EdgeType::UnodeManifestToFastlogDir) => k.flags.has_fastlog(),
            _ => true,
        }
    }

    /// The declared edges of the node's kind that the node enables, in
    /// declaration order.
    pub fn enabled_edges(&self) -> (r: Vec<EdgeType>)
        ensures
            r@ == self.kind().declared_edges().filter(|e: EdgeType| self.enables(e)),
    {
        let declared = self.get_type().outgoing_edges();
        let mut r: Vec<EdgeType> = Vec::new();
        let mut i: usize = 0;
        while i < declared.len()
            invariant
                0 <= i <= declared@.len(),
                declared@ == self.kind().declared_edges(),
                r@ == declared@.subrange(0, i as int).filter(|e: EdgeType| self.enables(e)),
            decreases declared@.len() - i,
        {
            let e = declared[i];
            let keep = match (self, e) {
                (Node::UnodeFile(k), EdgeType::UnodeFileToBlame) => k.flags.bits % 2 == 1,
                (Node::UnodeFile(k), EdgeType::UnodeFileToFastlogFile) => (k.flags.bits / 2) % 2 == 1,
                (Node::UnodeManifest(k), EdgeType::UnodeManifestToFastlogDir) => (k.flags.bits / 2) % 2
                    == 1,
                _ => true,
            };
            proof {
                let f = |e: EdgeType| self.enables(e);
                assert(declared@.subrange(0, i + 1).drop_last() =~= declared@.subrange(0, i as int));
                assert(keep == self.enables(e));
                declared@.subrange(0, i + 1).filter_lemma(f);
                assert(declared@.subrange(0, i + 1).filter(f) == if keep {
                    declared@.subrange(0, i as int).filter(f).push(e)
                } else {
                    declared@.subrange(0, i as int).filter(f)
                }) by {
                    reveal(Seq::filter);
                }
            }
            if keep {
                r.push(e);
            }
            i = i + 1;
        }
        proof {
            assert(declared@.subrange(0, declared@.len() as int) =~= declared@);
        }
        r
    }
}

} // verus!
