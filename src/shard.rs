//! Which relational store shard a node's fetch goes to, so that the walker
//! can bound concurrent requests per physical shard.
use crate::node::Node;
use blake2::digest::consts::U32;
use blake2::digest::Mac;
use blake2::Blake2bMac;
use vstd::prelude::*;

verus! {

/// The digest that the filenode store keys a path by.
pub uninterp spec fn filenode_path_digest(path: Seq<u8>) -> Seq<u8>;

/// Relies on blake2's `Blake2bMac<U32>`: the 32-byte BLAKE2b digest of the
/// path keyed with `path`, which the filenode store files each path under.
/// The key is four bytes, well within the 64 that the constructor accepts.
#[verifier::external_body]
fn path_digest(path: &[u8]) -> (r: [u8; 32])
    ensures
        r@ == filenode_path_digest(path@),
{
    let mut mac = <Blake2bMac<U32> as Mac>::new_from_slice(b"path").unwrap();
    mac.update(path);
    mac.finalize().into_bytes().into()
}

/// The shard count and name of a sharded relational tier.
#[derive(Clone, Debug, PartialEq, Eq)]
pub struct SqlTierInfo {
    pub tier_name: String,
    pub shard_num: Option<usize>,
}

/// How the relational stores are sharded, and the cap on keys in flight per
/// shard; without a cap no shard is reported.
#[derive(Clone, Debug, PartialEq, Eq)]
pub struct SqlShardInfo {
    pub filenodes: SqlTierInfo,
    pub active_keys_per_shard: Option<usize>,
}

impl SqlShardInfo {
    /// A tier that claims zero shards cannot place any key.
    pub open spec fn wf(self) -> bool {
        self.filenodes.shard_num != Some(0usize)
    }

    pub open spec fn filenode_shards(self) -> nat {
        match self.filenodes.shard_num {
            Some(n) => n as nat,
            None => 1,
        }
    }
}

/// The relational store shard a node needs.
#[derive(Clone, Copy, Debug, PartialEq, Eq, Hash, Structural)]
pub enum SqlShard {
    Metadata,
    HgFileNode(usize),
}

pub open spec fn rotl8(x: u64) -> u64 {
    (x << 8u64) | (x >> 56u64)
}

/// Folds a digest into an integer: rotate left by a byte, then xor the next
/// byte in.
pub open spec fn fold_digest(h: Seq<u8>) -> u64
    decreases h.len(),
{
    if h.len() == 0 {
        0
    } else {
        rotl8(fold_digest(h.drop_last())) ^ (h.last() as u64)
    }
}

/// The filenode shard of a path (`None` is the repository root).
pub open spec fn filenode_shard(path: Option<Seq<u8>>, shards: nat) -> usize {
    let bytes = match path {
        Some(p) => p,
        None => Seq::empty(),
    };
    (fold_digest(filenode_path_digest(bytes)) as nat % shards) as usize
}

fn fold_bytes(h: &[u8]) -> (r: u64)
    ensures
        r == fold_digest(h@),
{
    let mut acc: u64 = 0;
    let mut i: usize = 0;
    while i < h.len()
        invariant
            0 <= i <= h@.len(),
            acc == fold_digest(h@.subrange(0, i as int)),
        decreases h@.len() - i,
    {
        proof {
            assert(h@.subrange(0, i + 1).drop_last() =~= h@.subrange(0, i as int));
        }
        acc = ((acc << 8u64) | (acc >> 56u64)) ^ (h[i] as u64);
        i = i + 1;
    }
    assert(h@.subrange(0, h@.len() as int) =~= h@);
    acc
}

/// The shard of the filenode store that holds `path`.
fn filenode_shard_of(path: Option<&[u8]>, shards: usize) -> (r: usize)
    requires
        shards > 0,
    ensures
        r == filenode_shard(
            match path {
                Some(p) => Some(p@),
                None => None,
            },
            shards as nat,
        ),
{
    let digest = match path {
        Some(p) => path_digest(p),
        None => {
            let empty: [u8; 0] = [];
            proof {
                assert(empty@ =~= Seq::<u8>::empty());
            }
            path_digest(&empty)
        },
    };
    let raw = fold_bytes(&digest);
    (raw % (shards as u64)) as usize
}

impl Node {
    /// The shard a node maps to: only reported under a per-shard cap; the
    /// shared metadata store for bookmark, phase and mapping kinds; the
    /// filenode shard of the path for filenode kinds; none otherwise.
    pub open spec fn shard(self, info: SqlShardInfo) -> Option<SqlShard> {
        if info.active_keys_per_shard is None {
            None
        } else {
            match self {
                Node::Bookmark(_) => Some(SqlShard::Metadata),
                Node::BonsaiHgMapping(_) => Some(SqlShard::Metadata),
                Node::PhaseMapping(_) => Some(SqlShard::Metadata),
                Node::PublishedBookmarks(_) => Some(SqlShard::Metadata),
                Node::HgBonsaiMapping(_) => Some(SqlShard::Metadata),
                Node::HgChangesetViaBonsai(_) => Some(SqlShard::Metadata),
                Node::HgFileNode(k) => Some(
                    SqlShard::HgFileNode(filenode_shard(k.path@, info.filenode_shards())),
                ),
                Node::HgManifestFileNode(k) => Some(
                    SqlShard::HgFileNode(filenode_shard(k.path@, info.filenode_shards())),
                ),
                _ => None,
            }
        }
    }

    /// Maps the node to the relational store shard it needs, if any.
    pub fn sql_shard(&self, shard_info: &SqlShardInfo) -> (r: Option<SqlShard>)
        requires
            shard_info.active_keys_per_shard is Some ==> shard_info.wf(),
        ensures
            r == self.shard(*shard_info),
            shard_info.active_keys_per_shard is None ==> r is None,
    {
        if shard_info.active_keys_per_shard.is_none() {
            return None;
        }
        let shards: usize = match shard_info.filenodes.shard_num {
            Some(n) => n,
            None => 1,
        };
        match self {
            Node::Bookmark(_) => Some(SqlShard::Metadata),
            Node::BonsaiHgMapping(_) => Some(SqlShard::Metadata),
            Node::PhaseMapping(_) => Some(SqlShard::Metadata),
            Node::PublishedBookmarks(_) => Some(SqlShard::Metadata),
            Node::HgBonsaiMapping(_) => Some(SqlShard::Metadata),
            Node::HgChangesetViaBonsai(_) => Some(SqlShard::Metadata),
            Node::HgFileNode(k) => {
                let path = match k.path.as_ref() {
                    Some(p) => Some(p.as_slice()),
                    None => None,
                };
                Some(SqlShard::HgFileNode(filenode_shard_of(path, shards)))
            },
            Node::HgManifestFileNode(k) => {
                let path = match k.path.as_ref() {
                    Some(p) => Some(p.as_slice()),
                    None => None,
                };
                Some(SqlShard::HgFileNode(filenode_shard_of(path, shards)))
            },
            _ => None,
        }
    }
}

/// Without a per-shard cap, no node of any kind reports a shard.
pub proof fn lemma_no_cap_no_shard(n: Node, info: SqlShardInfo)
    requires
        info.active_keys_per_shard is None,
    ensures
        n.shard(info) is None,
{
}

/// The shard depends on the node's identity alone (a path's bytes, never its
/// per-process hash), so the same node maps to the same shard in every run.
pub proof fn lemma_shard_follows_identity(a: Node, b: Node, info: SqlShardInfo)
    requires
        a.same_as(b),
    ensures
        a.shard(info) == b.shard(info),
{
}

} // verus!
