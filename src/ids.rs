//! Content-addressed identifiers. Canonical ids are 32-byte Blake2 hashes,
//! legacy-compatible ids are 20-byte SHA-1 hashes.
use crate::hash::{
    decode_hex, decode_hex_into, fingerprint_of, hex_chars, le_fingerprint, push_hex,
};
use vstd::prelude::*;
use vstd::string::StringSliceAdditionalSpecFns;

verus! {

/// A 32-byte hash.
#[derive(Clone, Copy, Debug, Hash)]
pub struct Hash32 {
    pub bytes: [u8; 32],
}

/// A 20-byte hash.
#[derive(Clone, Copy, Debug, Hash)]
pub struct Hash20 {
    pub bytes: [u8; 20],
}

impl View for Hash32 {
    type V = Seq<u8>;

    open spec fn view(&self) -> Seq<u8> {
        self.bytes@
    }
}

impl View for Hash20 {
    type V = Seq<u8>;

    open spec fn view(&self) -> Seq<u8> {
        self.bytes@
    }
}

fn same_bytes(a: &[u8], b: &[u8]) -> (r: bool)
    ensures
        r == (a@ == b@),
{
    if a.len() != b.len() {
        return false;
    }
    let mut i: usize = 0;
    while i < a.len()
        invariant
            0 <= i <= a@.len(),
            a@.len() == b@.len(),
            forall|j: int| 0 <= j < i ==> a@[j] == b@[j],
        decreases a@.len() - i,
    {
        if a[i] != b[i] {
            return false;
        }
        i = i + 1;
    }
    assert(a@ =~= b@);
    true
}

impl PartialEq for Hash32 {
    fn eq(&self, other: &Hash32) -> (r: bool) {
        same_bytes(self.bytes.as_slice(), other.bytes.as_slice())
    }
}

impl Eq for Hash32 {}

impl vstd::std_specs::cmp::PartialEqSpecImpl for Hash32 {
    open spec fn obeys_eq_spec() -> bool {
        true
    }

    open spec fn eq_spec(&self, other: &Hash32) -> bool {
        self@ == other@
    }
}

impl PartialEq for Hash20 {
    fn eq(&self, other: &Hash20) -> (r: bool) {
        same_bytes(self.bytes.as_slice(), other.bytes.as_slice())
    }
}

impl Eq for Hash20 {}

impl vstd::std_specs::cmp::PartialEqSpecImpl for Hash20 {
    open spec fn obeys_eq_spec() -> bool {
        true
    }

    open spec fn eq_spec(&self, other: &Hash20) -> bool {
        self@ == other@
    }
}

impl Hash32 {
    /// Lower-case hex, 64 digits.
    pub fn to_hex(&self) -> (r: String)
        ensures
            r@ == hex_chars(self@),
    {
        let mut s = String::new();
        push_hex(&mut s, self.bytes.as_slice());
        s
    }

    /// The first eight bytes as a little-endian integer.
    pub fn sampling_fingerprint(&self) -> (r: u64)
        ensures
            r == fingerprint_of(self@),
    {
        le_fingerprint(self.bytes.as_slice())
    }

    /// Parses exactly 64 hex digits.
    pub fn from_hex(s: &str) -> (r: Option<Hash32>)
        ensures
            r is Some <==> decode_hex(s.spec_bytes(), 32) is Some,
            r is Some ==> decode_hex(s.spec_bytes(), 32) == Some(r.unwrap()@),
    {
        let mut bytes = [0u8; 32];
        if decode_hex_into(s, &mut bytes) {
            Some(Hash32 { bytes })
        } else {
            None
        }
    }
}

impl Hash20 {
    /// Lower-case hex, 40 digits.
    pub fn to_hex(&self) -> (r: String)
        ensures
            r@ == hex_chars(self@),
    {
        let mut s = String::new();
        push_hex(&mut s, self.bytes.as_slice());
        s
    }

    /// The first eight bytes as a little-endian integer.
    pub fn sampling_fingerprint(&self) -> (r: u64)
        ensures
            r == fingerprint_of(self@),
    {
        le_fingerprint(self.bytes.as_slice())
    }

    /// Parses exactly 40 hex digits.
    pub fn from_hex(s: &str) -> (r: Option<Hash20>)
        ensures
            r is Some <==> decode_hex(s.spec_bytes(), 20) is Some,
            r is Some ==> decode_hex(s.spec_bytes(), 20) == Some(r.unwrap()@),
    {
        let mut bytes = [0u8; 20];
        if decode_hex_into(s, &mut bytes) {
            Some(Hash20 { bytes })
        } else {
            None
        }
    }
}

/// An identifier that names an object in the blob store.
pub trait TypedId: Sized {
    /// The bytes of the underlying hash.
    spec fn id_bytes(&self) -> Seq<u8>;

    /// The number of bytes of the underlying hash.
    spec fn id_len() -> nat;

    /// What the blob store key puts before the hex digits.
    spec fn key_prefix() -> Seq<char>;

    /// The key under which the blob store holds the object.
    fn blobstore_key(&self) -> (r: String)
        ensures
            r@ == Self::key_prefix() + hex_chars(self.id_bytes()),
    ;

    /// The first eight bytes of the hash, little-endian.
    fn sampling_fingerprint(&self) -> (r: u64)
        ensures
            r == fingerprint_of(self.id_bytes()),
    ;

    /// The hash as hex digits.
    fn to_hex(&self) -> (r: String)
        ensures
            r@ == hex_chars(self.id_bytes()),
    ;

    /// Parses exactly `2 * id_len()` hex digits.
    fn from_hex(s: &str) -> (r: Option<Self>)
        ensures
            r is Some <==> decode_hex(s.spec_bytes(), Self::id_len()) is Some,
            r is Some ==> decode_hex(s.spec_bytes(), Self::id_len()) == Some(r.unwrap().id_bytes()),
    ;
}

/// `prefix` followed by the hex digits of `bytes`.
pub fn prefixed_hex(prefix: &str, bytes: &[u8]) -> (r: String)
    ensures
        r@ == prefix@ + hex_chars(bytes@),
{
    let mut s = prefix.to_owned();
    push_hex(&mut s, bytes);
    s
}

/// A commit in the canonical representation.
#[derive(Clone, Copy, Debug, PartialEq, Eq, Hash)]
pub struct ChangesetId(pub Hash32);

impl TypedId for ChangesetId {
    open spec fn id_bytes(&self) -> Seq<u8> {
        self.0@
    }

    open spec fn id_len() -> nat {
        32
    }

    open spec fn key_prefix() -> Seq<char> {
        "changeset.blake2."@
    }

    fn blobstore_key(&self) -> (r: String) {
        prefixed_hex("changeset.blake2.", self.0.bytes.as_slice())
    }

    fn sampling_fingerprint(&self) -> (r: u64) {
        self.0.sampling_fingerprint()
    }

    fn to_hex(&self) -> (r: String) {
        self.0.to_hex()
    }

    fn from_hex(s: &str) -> (r: Option<ChangesetId>) {
        match Hash32::from_hex(s) {
            Some(h) => Some(ChangesetId(h)),
            None => None,
        }
    }
}

/// File content.
#[derive(Clone, Copy, Debug, PartialEq, Eq, Hash)]
pub struct ContentId(pub Hash32);

impl TypedId for ContentId {
    open spec fn id_bytes(&self) -> Seq<u8> {
        self.0@
    }

    open spec fn id_len() -> nat {
        32
    }

    open spec fn key_prefix() -> Seq<char> {
        "content.blake2."@
    }

    fn blobstore_key(&self) -> (r: String) {
        prefixed_hex("content.blake2.", self.0.bytes.as_slice())
    }

    fn sampling_fingerprint(&self) -> (r: u64) {
        self.0.sampling_fingerprint()
    }

    fn to_hex(&self) -> (r: String) {
        self.0.to_hex()
    }

    fn from_hex(s: &str) -> (r: Option<ContentId>) {
        match Hash32::from_hex(s) {
            Some(h) => Some(ContentId(h)),
            None => None,
        }
    }
}

/// Blame data of a file.
#[derive(Clone, Copy, Debug, PartialEq, Eq, Hash)]
pub struct BlameId(pub Hash32);

impl TypedId for BlameId {
    open spec fn id_bytes(&self) -> Seq<u8> {
        self.0@
    }

    open spec fn id_len() -> nat {
        32
    }

    open spec fn key_prefix() -> Seq<char> {
        "blame.blake2."@
    }

    fn blobstore_key(&self) -> (r: String) {
        prefixed_hex("blame.blake2.", self.0.bytes.as_slice())
    }

    fn sampling_fingerprint(&self) -> (r: u64) {
        self.0.sampling_fingerprint()
    }

    fn to_hex(&self) -> (r: String) {
        self.0.to_hex()
    }

    fn from_hex(s: &str) -> (r: Option<BlameId>) {
        match Hash32::from_hex(s) {
            Some(h) => Some(BlameId(h)),
            None => None,
        }
    }
}

/// A deleted-files manifest.
#[derive(Clone, Copy, Debug, PartialEq, Eq, Hash)]
pub struct DeletedManifestId(pub Hash32);

impl TypedId for DeletedManifestId {
    open spec fn id_bytes(&self) -> Seq<u8> {
        self.0@
    }

    open spec fn id_len() -> nat {
        32
    }

    open spec fn key_prefix() -> Seq<char> {
        "deletedmanifest.blake2."@
    }

    fn blobstore_key(&self) -> (r: String) {
        prefixed_hex("deletedmanifest.blake2.", self.0.bytes.as_slice())
    }

    fn sampling_fingerprint(&self) -> (r: u64) {
        self.0.sampling_fingerprint()
    }

    fn to_hex(&self) -> (r: String) {
        self.0.to_hex()
    }

    fn from_hex(s: &str) -> (r: Option<DeletedManifestId>) {
        match Hash32::from_hex(s) {
            Some(h) => Some(DeletedManifestId(h)),
            None => None,
        }
    }
}

/// A batch of precomputed history.
#[derive(Clone, Copy, Debug, PartialEq, Eq, Hash)]
pub struct FastlogBatchId(pub Hash32);

impl TypedId for FastlogBatchId {
    open spec fn id_bytes(&self) -> Seq<u8> {
        self.0@
    }

    open spec fn id_len() -> nat {
        32
    }

    open spec fn key_prefix() -> Seq<char> {
        "fastlogbatch.blake2."@
    }

    fn blobstore_key(&self) -> (r: String) {
        prefixed_hex("fastlogbatch.blake2.", self.0.bytes.as_slice())
    }

    fn sampling_fingerprint(&self) -> (r: u64) {
        self.0.sampling_fingerprint()
    }

    fn to_hex(&self) -> (r: String) {
        self.0.to_hex()
    }

    fn from_hex(s: &str) -> (r: Option<FastlogBatchId>) {
        match Hash32::from_hex(s) {
            Some(h) => Some(FastlogBatchId(h)),
            None => None,
        }
    }
}

/// A file unode.
#[derive(Clone, Copy, Debug, PartialEq, Eq, Hash)]
pub struct FileUnodeId(pub Hash32);

impl TypedId for FileUnodeId {
    open spec fn id_bytes(&self) -> Seq<u8> {
        self.0@
    }

    open spec fn id_len() -> nat {
        32
    }

    open spec fn key_prefix() -> Seq<char> {
        "fileunode.blake2."@
    }

    fn blobstore_key(&self) -> (r: String) {
        prefixed_hex("fileunode.blake2.", self.0.bytes.as_slice())
    }

    fn sampling_fingerprint(&self) -> (r: u64) {
        self.0.sampling_fingerprint()
    }

    fn to_hex(&self) -> (r: String) {
        self.0.to_hex()
    }

    fn from_hex(s: &str) -> (r: Option<FileUnodeId>) {
        match Hash32::from_hex(s) {
            Some(h) => Some(FileUnodeId(h)),
            None => None,
        }
    }
}

/// A directory unode.
#[derive(Clone, Copy, Debug, PartialEq, Eq, Hash)]
pub struct ManifestUnodeId(pub Hash32);

impl TypedId for ManifestUnodeId {
    open spec fn id_bytes(&self) -> Seq<u8> {
        self.0@
    }

    open spec fn id_len() -> nat {
        32
    }

    open spec fn key_prefix() -> Seq<char> {
        "manifestunode.blake2."@
    }

    fn blobstore_key(&self) -> (r: String) {
        prefixed_hex("manifestunode.blake2.", self.0.bytes.as_slice())
    }

    fn sampling_fingerprint(&self) -> (r: u64) {
        self.0.sampling_fingerprint()
    }

    fn to_hex(&self) -> (r: String) {
        self.0.to_hex()
    }

    fn from_hex(s: &str) -> (r: Option<ManifestUnodeId>) {
        match Hash32::from_hex(s) {
            Some(h) => Some(ManifestUnodeId(h)),
            None => None,
        }
    }
}

/// A directory fsnode.
#[derive(Clone, Copy, Debug, PartialEq, Eq, Hash)]
pub struct FsnodeId(pub Hash32);

impl TypedId for FsnodeId {
    open spec fn id_bytes(&self) -> Seq<u8> {
        self.0@
    }

    open spec fn id_len() -> nat {
        32
    }

    open spec fn key_prefix() -> Seq<char> {
        "fsnode.blake2."@
    }

    fn blobstore_key(&self) -> (r: String) {
        prefixed_hex("fsnode.blake2.", self.0.bytes.as_slice())
    }

    fn sampling_fingerprint(&self) -> (r: u64) {
        self.0.sampling_fingerprint()
    }

    fn to_hex(&self) -> (r: String) {
        self.0.to_hex()
    }

    fn from_hex(s: &str) -> (r: Option<FsnodeId>) {
        match Hash32::from_hex(s) {
            Some(h) => Some(FsnodeId(h)),
            None => None,
        }
    }
}

/// A skeleton manifest.
#[derive(Clone, Copy, Debug, PartialEq, Eq, Hash)]
pub struct SkeletonManifestId(pub Hash32);

impl TypedId for SkeletonManifestId {
    open spec fn id_bytes(&self) -> Seq<u8> {
        self.0@
    }

    open spec fn id_len() -> nat {
        32
    }

    open spec fn key_prefix() -> Seq<char> {
        "skeletonmanifest.blake2."@
    }

    fn blobstore_key(&self) -> (r: String) {
        prefixed_hex("skeletonmanifest.blake2.", self.0.bytes.as_slice())
    }

    fn sampling_fingerprint(&self) -> (r: u64) {
        self.0.sampling_fingerprint()
    }

    fn to_hex(&self) -> (r: String) {
        self.0.to_hex()
    }

    fn from_hex(s: &str) -> (r: Option<SkeletonManifestId>) {
        match Hash32::from_hex(s) {
            Some(h) => Some(SkeletonManifestId(h)),
            None => None,
        }
    }
}

/// A commit in the legacy-compatible representation.
#[derive(Clone, Copy, Debug, PartialEq, Eq, Hash)]
pub struct HgChangesetId(pub Hash20);

impl TypedId for HgChangesetId {
    open spec fn id_bytes(&self) -> Seq<u8> {
        self.0@
    }

    open spec fn id_len() -> nat {
        20
    }

    open spec fn key_prefix() -> Seq<char> {
        "hgchangeset.sha1."@
    }

    fn blobstore_key(&self) -> (r: String) {
        prefixed_hex("hgchangeset.sha1.", self.0.bytes.as_slice())
    }

    fn sampling_fingerprint(&self) -> (r: u64) {
        self.0.sampling_fingerprint()
    }

    fn to_hex(&self) -> (r: String) {
        self.0.to_hex()
    }

    fn from_hex(s: &str) -> (r: Option<HgChangesetId>) {
        match Hash20::from_hex(s) {
            Some(h) => Some(HgChangesetId(h)),
            None => None,
        }
    }
}

/// A legacy-compatible manifest.
#[derive(Clone, Copy, Debug, PartialEq, Eq, Hash)]
pub struct HgManifestId(pub Hash20);

impl TypedId for HgManifestId {
    open spec fn id_bytes(&self) -> Seq<u8> {
        self.0@
    }

    open spec fn id_len() -> nat {
        20
    }

    open spec fn key_prefix() -> Seq<char> {
        "hgmanifest.sha1."@
    }

    fn blobstore_key(&self) -> (r: String) {
        prefixed_hex("hgmanifest.sha1.", self.0.bytes.as_slice())
    }

    fn sampling_fingerprint(&self) -> (r: u64) {
        self.0.sampling_fingerprint()
    }

    fn to_hex(&self) -> (r: String) {
        self.0.to_hex()
    }

    fn from_hex(s: &str) -> (r: Option<HgManifestId>) {
        match Hash20::from_hex(s) {
            Some(h) => Some(HgManifestId(h)),
            None => None,
        }
    }
}

/// A legacy-compatible file revision.
#[derive(Clone, Copy, Debug, PartialEq, Eq, Hash)]
pub struct HgFileNodeId(pub Hash20);

impl TypedId for HgFileNodeId {
    open spec fn id_bytes(&self) -> Seq<u8> {
        self.0@
    }

    open spec fn id_len() -> nat {
        20
    }

    open spec fn key_prefix() -> Seq<char> {
        "hgfilenode.sha1."@
    }

    fn blobstore_key(&self) -> (r: String) {
        prefixed_hex("hgfilenode.sha1.", self.0.bytes.as_slice())
    }

    fn sampling_fingerprint(&self) -> (r: u64) {
        self.0.sampling_fingerprint()
    }

    fn to_hex(&self) -> (r: String) {
        self.0.to_hex()
    }

    fn from_hex(s: &str) -> (r: Option<HgFileNodeId>) {
        match Hash20::from_hex(s) {
            Some(h) => Some(HgFileNodeId(h)),
            None => None,
        }
    }
}

/// The hash function behind a content alias.
#[derive(Clone, Copy, Debug, PartialEq, Eq, Hash, Structural)]
pub enum AliasType {
    GitSha1,
    Sha1,
    Sha256,
}

/// An alternative content identity, mapped to the canonical content id.
#[derive(Clone, Copy, Debug, PartialEq, Eq, Hash)]
pub enum Alias {
    GitSha1(Hash20),
    Sha1(Hash20),
    Sha256(Hash32),
}

impl Alias {
    pub open spec fn alias_type(&self) -> AliasType {
        match self {
            Alias::GitSha1(_) => AliasType::GitSha1,
            Alias::Sha1(_) => AliasType::Sha1,
            Alias::Sha256(_) => AliasType::Sha256,
        }
    }

    pub open spec fn hash_bytes(&self) -> Seq<u8> {
        match self {
            Alias::GitSha1(h) => h@,
            Alias::Sha1(h) => h@,
            Alias::Sha256(h) => h@,
        }
    }
}

} // verus!
