//! Repository paths. A path that the walk meets is interned by its bytes, so
//! that every occurrence of the same path shares one allocation; each wrapped
//! path carries its hash, taken once when it is wrapped. Comparisons go by the
//! path's bytes alone.
use internment::ArcIntern;
use vstd::prelude::*;
use vstd::std_specs::cmp::PartialEqSpec;

verus! {

#[verifier::external_type_specification]
#[verifier::external_body]
#[verifier::reject_recursive_types(T)]
pub struct ExArcIntern<T: ?Sized + Eq + std::hash::Hash + Send + Sync + 'static>(ArcIntern<T>);

/// Relies on `Clone for internment::ArcIntern`: the copy points at the same
/// interned entry.
pub assume_specification<T: ?Sized + Eq + std::hash::Hash + Send + Sync + 'static>[ <ArcIntern<T> as Clone>::clone ](a: &ArcIntern<T>) -> (r: ArcIntern<T>)
    ensures
        r == *a,
;

#[verifier::external_type_specification]
#[verifier::external_body]
pub struct ExRandomState(ahash::RandomState);

/// The path bytes held by an interned entry.
pub uninterp spec fn interned_path(a: ArcIntern<MPath>) -> Seq<u8>;

/// Relies on `internment::ArcIntern::new`: it returns the entry already
/// interned that is `==` to `v` (same bytes, by `MPath`'s derived `PartialEq`
/// on its byte vector), or interns `v` itself.
#[verifier::external_body]
fn intern(v: MPath) -> (r: ArcIntern<MPath>)
    ensures
        interned_path(r) == v@,
{
    ArcIntern::new(v)
}

/// Relies on `Deref for internment::ArcIntern`: it yields the interned entry.
#[verifier::external_body]
fn interned_entry(a: &ArcIntern<MPath>) -> (r: &MPath)
    ensures
        r@ == interned_path(*a),
{
    a
}

/// Relies on `ahash::RandomState::hash_one`: a hash of the bytes under the
/// state's seed, which each process draws anew, so nothing is stated of it.
#[verifier::external_body]
fn seeded_hash(state: &ahash::RandomState, bytes: &[u8]) -> (r: u64) {
    state.hash_one(bytes)
}

/// A valid repository path: non-empty `/`-separated elements, each non-empty,
/// with no NUL byte.
pub open spec fn valid_mpath(b: Seq<u8>) -> bool {
    &&& b.len() > 0
    &&& b[0] != 47
    &&& b[b.len() - 1] != 47
    &&& forall|i: int| 0 <= i < b.len() ==> #[trigger] b[i] != 0
    &&& forall|i: int| 0 <= i < b.len() - 1 ==> !(#[trigger] b[i] == 47 && b[i + 1] == 47)
}

/// A repository-relative path, as its bytes.
#[derive(Clone, Debug, PartialEq, Eq, Hash)]
pub struct MPath {
    pub bytes: Vec<u8>,
}

impl View for MPath {
    type V = Seq<u8>;

    open spec fn view(&self) -> Seq<u8> {
        self.bytes@
    }
}

impl MPath {
    /// Checks `bytes` against the path rules.
    pub fn new(bytes: Vec<u8>) -> (r: Option<MPath>)
        ensures
            r is Some <==> valid_mpath(bytes@),
            r is Some ==> r.unwrap()@ == bytes@,
    {
        let n = bytes.len();
        if n == 0 || bytes[0] == 47 || bytes[n - 1] == 47 {
            return None;
        }
        let mut i: usize = 0;
        while i < n
            invariant
                0 <= i <= n,
                n == bytes@.len(),
                n > 0,
                forall|j: int| 0 <= j < i ==> #[trigger] bytes@[j] != 0,
                forall|j: int| 0 <= j < i && j < n - 1 ==> !(#[trigger] bytes@[j] == 47 && bytes@[j
                    + 1] == 47),
            decreases n - i,
        {
            if bytes[i] == 0 {
                return None;
            }
            if i + 1 < n && bytes[i] == 47 && bytes[i + 1] == 47 {
                return None;
            }
            i = i + 1;
        }
        Some(MPath { bytes })
    }

    pub fn as_slice(&self) -> (r: &[u8])
        ensures
            r@ == self@,
    {
        self.bytes.as_slice()
    }
}

/// An interned path together with its hash, computed once when the path is
/// wrapped. Interning goes by the path's bytes alone, so every occurrence of a
/// path shares one entry whatever seed its hash was taken with.
#[derive(Clone, Debug)]
pub struct MPathWithHashMemo {
    pub mpath: ArcIntern<MPath>,
    pub memoized_hash: u64,
}

impl MPathWithHashMemo {
    fn new(mpath: MPath, state: &ahash::RandomState) -> (r: MPathWithHashMemo)
        ensures
            interned_path(r.mpath) == mpath@,
    {
        let memoized_hash = seeded_hash(state, mpath.as_slice());
        MPathWithHashMemo { mpath: intern(mpath), memoized_hash }
    }

    /// The memoized hash, as a path hash.
    pub fn get_path_hash_memo(&self) -> (r: WrappedPathHash)
        ensures
            r == WrappedPathHash::NonRoot(self.memoized_hash),
    {
        WrappedPathHash::NonRoot(self.memoized_hash)
    }

    pub fn mpath(&self) -> (r: &MPath)
        ensures
            r@ == interned_path(self.mpath),
    {
        interned_entry(&self.mpath)
    }
}

/// The hash of a path, or `Root` for no path.
#[derive(Clone, Copy, Debug, PartialEq, Eq, Hash, Structural)]
pub enum WrappedPathHash {
    Root,
    NonRoot(u64),
}

/// The sampling fingerprint of the root path.
pub const ROOT_FINGERPRINT: u64 = 0;

impl WrappedPathHash {
    pub fn as_ref(&self) -> (r: Option<&u64>)
        ensures
            r is Some <==> self is NonRoot,
            r is Some ==> *r.unwrap() == self->NonRoot_0,
    {
        match self {
            WrappedPathHash::Root => None,
            WrappedPathHash::NonRoot(h) => Some(h),
        }
    }

    pub open spec fn fingerprint(self) -> u64 {
        match self {
            WrappedPathHash::Root => ROOT_FINGERPRINT,
            WrappedPathHash::NonRoot(h) => h,
        }
    }

    pub fn sampling_fingerprint(&self) -> (r: u64)
        ensures
            r == self.fingerprint(),
    {
        match self {
            WrappedPathHash::Root => ROOT_FINGERPRINT,
            WrappedPathHash::NonRoot(h) => *h,
        }
    }
}

/// The root path, or an interned non-root path with its cached hash.
/// Equality goes by the path's bytes alone.
#[derive(Clone, Debug)]
pub enum WrappedPath {
    Root,
    NonRoot(MPathWithHashMemo),
}

impl View for WrappedPath {
    type V = Option<Seq<u8>>;

    /// The path's bytes; `None` for the root.
    open spec fn view(&self) -> Option<Seq<u8>> {
        match self {
            WrappedPath::Root => None,
            WrappedPath::NonRoot(p) => Some(interned_path(p.mpath)),
        }
    }
}

fn same_bytes(a: &[u8], b: &[u8]) -> (r: bool)
    ensures
        r == (a@ == b@),
{
    if a.len() != b.len() {
        return false;
    }
    let mut i: usize = 0;
    while i < a.len()
        invariant
            0 <= i <= a@.len(),
            a@.len() == b@.len(),
            forall|j: int| 0 <= j < i ==> a@[j] == b@[j],
        decreases a@.len() - i,
    {
        if a[i] != b[i] {
            return false;
        }
        i = i + 1;
    }
    assert(a@ =~= b@);
    true
}

impl PartialEq for WrappedPath {
    fn eq(&self, other: &WrappedPath) -> (r: bool) {
        match (self, other) {
            (WrappedPath::Root, WrappedPath::Root) => true,
            (WrappedPath::NonRoot(a), WrappedPath::NonRoot(b)) => same_bytes(
                a.mpath().as_slice(),
                b.mpath().as_slice(),
            ),
            _ => false,
        }
    }
}

impl Eq for WrappedPath {}

impl vstd::std_specs::cmp::PartialEqSpecImpl for WrappedPath {
    open spec fn obeys_eq_spec() -> bool {
        true
    }

    open spec fn eq_spec(&self, other: &WrappedPath) -> bool {
        self@ == other@
    }
}

impl WrappedPath {
    /// Wraps a path, interning it; `None` stands for the root. Every path
    /// of one walk should be made with the same `state`, so that equal paths
    /// carry equal hashes.
    pub fn from_mpath(mpath: Option<MPath>, state: &ahash::RandomState) -> (r: WrappedPath)
        ensures
            r@ == match mpath {
                Some(p) => Some(p@),
                None => None::<Seq<u8>>,
            },
    {
        match mpath {
            Some(p) => WrappedPath::NonRoot(MPathWithHashMemo::new(p, state)),
            None => WrappedPath::Root,
        }
    }

    pub open spec fn path_hash(&self) -> WrappedPathHash {
        match self {
            WrappedPath::Root => WrappedPathHash::Root,
            WrappedPath::NonRoot(p) => WrappedPathHash::NonRoot(p.memoized_hash),
        }
    }

    pub fn as_ref(&self) -> (r: Option<&MPath>)
        ensures
            r is Some <==> self@ is Some,
            r is Some ==> r.unwrap()@ == self@.unwrap(),
    {
        match self {
            WrappedPath::Root => None,
            WrappedPath::NonRoot(p) => Some(p.mpath()),
        }
    }

    pub fn get_path_hash(&self) -> (r: WrappedPathHash)
        ensures
            r == self.path_hash(),
    {
        match self {
            WrappedPath::Root => WrappedPathHash::Root,
            WrappedPath::NonRoot(p) => p.get_path_hash_memo(),
        }
    }

    pub fn sampling_fingerprint(&self) -> (r: u64)
        ensures
            r == self.path_hash().fingerprint(),
    {
        self.get_path_hash().sampling_fingerprint()
    }
}

/// Two wrapped paths are `==` exactly when they hold the same bytes (or are
/// both the root): interning and the cached hash take no part.
pub proof fn lemma_wrapped_path_eq_by_content(a: WrappedPath, b: WrappedPath, p: MPath, q: MPath)
    ensures
        a.eq_spec(&b) <==> a@ == b@,
        (a@ == Some(p@) && b@ == Some(q@)) ==> (a.eq_spec(&b) <==> p@ == q@),
{
}

/// What the path and its hash-only counterpart have in common.
pub trait WrappedPathLike {
    fn sampling_fingerprint(&self) -> u64;
}

impl WrappedPathLike for WrappedPathHash {
    fn sampling_fingerprint(&self) -> u64 {
        WrappedPathHash::sampling_fingerprint(self)
    }
}

impl WrappedPathLike for WrappedPath {
    fn sampling_fingerprint(&self) -> u64 {
        WrappedPath::sampling_fingerprint(self)
    }
}

} // verus!
