use blake2::digest::consts::U32;
use blake2::digest::Mac;
use blake2::Blake2bMac;
use sha1::{Digest, Sha1};

use walker_graph::bookmarks::{BookmarkMovementError, BookmarkUpdatePolicy, BookmarkUpdateTargets};
use walker_graph::compiler::{CompileError, KeyParseError, KeyType, KindDecl, Schema, TargetDecl};
use walker_graph::data::{
    compute_hg_node_id, FetchOutcome, FileContentData, HgFileEnvelope, NodeData, ValidationError,
};
use walker_graph::ids::{
    Alias, ChangesetId, ContentId, FileUnodeId, Hash20, Hash32, HgChangesetId, HgFileNodeId,
    HgManifestId, TypedId,
};
use walker_graph::node::{
    BookmarkName, ChangesetKey, FastlogKey, Node, ParseError, PathKey, UnitKey, UnodeFlags, UnodeKey,
};
use walker_graph::path::{MPath, WrappedPath, WrappedPathHash};
use walker_graph::schema::{EdgeType, NodeType};
use walker_graph::shard::{SqlShard, SqlShardInfo, SqlTierInfo};
use walker_graph::walk::OutgoingEdge;

fn h32(start: u8) -> Hash32 {
    let mut bytes = [0u8; 32];
    for (i, b) in bytes.iter_mut().enumerate() {
        *b = start.wrapping_add(i as u8);
    }
    Hash32 { bytes }
}

fn h20(start: u8) -> Hash20 {
    let mut bytes = [0u8; 20];
    for (i, b) in bytes.iter_mut().enumerate() {
        *b = start.wrapping_add(i as u8);
    }
    Hash20 { bytes }
}

fn hex(bytes: &[u8]) -> String {
    bytes.iter().map(|b| format!("{:02x}", b)).collect()
}

fn path(state: &ahash::RandomState, p: &str) -> WrappedPath {
    WrappedPath::from_mpath(Some(MPath::new(p.as_bytes().to_vec()).unwrap()), state)
}

fn capped(shards: Option<usize>) -> SqlShardInfo {
    SqlShardInfo {
        filenodes: SqlTierInfo { tier_name: "filenodes".to_string(), shard_num: shards },
        active_keys_per_shard: Some(100),
    }
}

#[test]
fn bookmark_is_reached_from_root_and_leads_to_changesets() {
    assert_eq!(NodeType::Bookmark.root_edge_type(), Some(EdgeType::RootToBookmark));
    assert_eq!(NodeType::Root.root_edge_type(), None);
    let targets: Vec<NodeType> = NodeType::Bookmark
        .outgoing_edges()
        .iter()
        .map(|e| e.outgoing_type())
        .collect();
    assert_eq!(targets, vec![NodeType::Changeset, NodeType::BonsaiHgMapping]);
    let main = Node::Bookmark(BookmarkName::new("main").unwrap());
    assert_eq!(main.get_type(), NodeType::Bookmark);
    let c1 = Node::Changeset(ChangesetKey { inner: ChangesetId(h32(1)), filenode_known_derived: false });
    assert_eq!(c1.get_type(), EdgeType::BookmarkToChangeset.outgoing_type());
}

#[test]
fn every_declared_edge_is_well_typed() {
    let mut count = 0;
    for k in NodeType::all() {
        for e in k.outgoing_edges() {
            count += 1;
            assert_ne!(e.outgoing_type(), NodeType::Root);
            let expected = if k == NodeType::Root { None } else { Some(k) };
            assert_eq!(e.incoming_type(), expected);
        }
    }
    assert_eq!(count, EdgeType::COUNT);
    assert_eq!(EdgeType::all().len(), EdgeType::COUNT);
    assert_eq!(NodeType::all().len(), NodeType::COUNT);
    assert_eq!(EdgeType::HgChangesetToHgParent.outgoing_type(), NodeType::HgChangesetViaBonsai);
    assert_eq!(EdgeType::HgChangesetToHgParent.as_str(), "HgChangesetToHgParent");
}

#[test]
fn every_kind_but_root_has_a_root_edge() {
    for k in NodeType::all() {
        match k.root_edge_type() {
            Some(e) => {
                assert_eq!(e.incoming_type(), None);
                assert_eq!(e.outgoing_type(), k);
            }
            None => assert_eq!(k, NodeType::Root),
        }
    }
}

#[test]
fn explicit_and_inherited_paths_agree() {
    let state = ahash::RandomState::new();
    let content = Node::FileContent(ContentId(h32(7)));
    let explicit = OutgoingEdge::new_with_path(
        EdgeType::ChangesetToFileContent,
        content.clone(),
        path(&state, "a/b.txt"),
    );
    let inherited = OutgoingEdge::new(EdgeType::HgFileEnvelopeToFileContent, content.clone());
    let route = path(&state, "a/b.txt");
    let via_step = WrappedPath::evolve_path(None, &explicit).unwrap();
    let via_route = WrappedPath::evolve_path(Some(&route), &inherited).unwrap();
    assert_eq!(via_step, via_route);
    assert_eq!(via_step.sampling_fingerprint(), via_route.sampling_fingerprint());
    assert_eq!(via_step.as_ref().unwrap().bytes, b"a/b.txt".to_vec());
}

#[test]
fn path_precedence_is_explicit_then_identity_then_route() {
    let state = ahash::RandomState::new();
    let route = path(&state, "route");
    let own = path(&state, "own");
    let step = path(&state, "step");
    let manifest = Node::HgManifest(PathKey::new(HgManifestId(h20(3)), own.clone()));
    let with_step = OutgoingEdge::new_with_path(EdgeType::HgManifestToChildHgManifest, manifest.clone(), step.clone());
    let without = OutgoingEdge::new(EdgeType::HgManifestToChildHgManifest, manifest);
    assert_eq!(WrappedPath::evolve_path(Some(&route), &with_step), Some(&step));
    assert_eq!(WrappedPath::evolve_path(Some(&route), &without), Some(&own));
    let fsnode = OutgoingEdge::new(EdgeType::FsnodeToChildFsnode, Node::Fsnode(walker_graph::ids::FsnodeId(h32(4))));
    assert_eq!(WrappedPath::evolve_path(Some(&route), &fsnode), Some(&route));
    assert_eq!(WrappedPath::evolve_path(None, &fsnode), None);
    // the hash-only rule agrees
    assert_eq!(
        WrappedPathHash::evolve_path(Some(route.get_path_hash()), &without),
        Some(own.get_path_hash())
    );
    assert_eq!(
        WrappedPathHash::evolve_path(Some(route.get_path_hash()), &with_step),
        Some(step.get_path_hash())
    );
}

#[test]
fn disallowed_kind_drops_the_route_path() {
    let state = ahash::RandomState::new();
    let route = path(&state, "dir/file");
    let cs = Node::Changeset(ChangesetKey { inner: ChangesetId(h32(9)), filenode_known_derived: true });
    assert!(!NodeType::Changeset.allow_repo_path());
    let edge = OutgoingEdge::new(EdgeType::UnodeFileToLinkedChangeset, cs);
    assert_eq!(WrappedPath::evolve_path(Some(&route), &edge), None);
    assert_eq!(WrappedPathHash::evolve_path(Some(route.get_path_hash()), &edge), None);
    let cs = Node::Changeset(ChangesetKey { inner: ChangesetId(h32(9)), filenode_known_derived: true });
    let explicit = OutgoingEdge::new_with_path(EdgeType::UnodeFileToLinkedChangeset, cs, path(&state, "x"));
    assert_eq!(WrappedPath::evolve_path(Some(&route), &explicit), None);
    assert_eq!(WrappedPathHash::evolve_path(Some(route.get_path_hash()), &explicit), None);
    assert_eq!(WrappedPathHash::Root.sampling_fingerprint(), 0);
}

#[test]
fn interned_paths_compare_by_content() {
    let state = ahash::RandomState::new();
    let a = path(&state, "x/y");
    let b = path(&state, "x/y");
    let c = path(&state, "x/z");
    assert_eq!(a, b);
    assert_ne!(a, c);
    assert_eq!(a.get_path_hash(), b.get_path_hash());
    let other_seed = ahash::RandomState::new();
    let d = path(&other_seed, "x/y");
    assert_eq!(a, d);
    assert_ne!(c, d);
    assert_ne!(a, WrappedPath::Root);
    assert_eq!(WrappedPath::from_mpath(None, &state), WrappedPath::Root);
    assert_eq!(WrappedPath::Root.as_ref(), None);
    assert!(MPath::new(b"".to_vec()).is_none());
    assert!(MPath::new(b"/a".to_vec()).is_none());
    assert!(MPath::new(b"a//b".to_vec()).is_none());
    assert!(MPath::new(b"a/".to_vec()).is_none());
    assert!(MPath::new(b"a\0b".to_vec()).is_none());
}

#[test]
fn store_keys_match_the_store_scheme() {
    let id = h32(0);
    let cs = Node::Changeset(ChangesetKey { inner: ChangesetId(id), filenode_known_derived: false });
    assert_eq!(cs.stats_key(), format!("changeset.blake2.{}", hex(&id.bytes)));
    assert_eq!(Node::Root(UnitKey()).stats_key(), "root");
    assert_eq!(Node::PublishedBookmarks(UnitKey()).stats_key(), "published_bookmarks");
    assert_eq!(Node::Bookmark(BookmarkName::new("main").unwrap()).stats_key(), "main");
    let hg = h20(0);
    assert_eq!(
        Node::HgChangeset(ChangesetKey { inner: HgChangesetId(hg), filenode_known_derived: false }).stats_key(),
        format!("hgchangeset.sha1.{}", hex(&hg.bytes))
    );
    assert_eq!(
        Node::FastlogFile(FastlogKey::new(FileUnodeId(id))).stats_key(),
        format!("fastlogbatch.fileunode.blake2.{}", hex(&id.bytes))
    );
    assert_eq!(
        Node::UnodeFile(UnodeKey { inner: FileUnodeId(id), flags: UnodeFlags::blame() }).stats_key(),
        format!("fileunode.blake2.{}", hex(&id.bytes))
    );
    assert_eq!(
        Node::AliasContentMapping(walker_graph::node::AliasKey(Alias::Sha256(id))).stats_key(),
        format!("alias.sha256.{}", hex(&id.bytes))
    );
    assert_eq!(
        hex(&id.bytes),
        "000102030405060708090a0b0c0d0e0f101112131415161718191a1b1c1d1e1f"
    );
}

#[test]
fn fingerprints_come_from_the_first_eight_bytes() {
    let cs = Node::PhaseMapping(ChangesetId(h32(1)));
    assert_eq!(cs.sampling_fingerprint(), Some(0x0807060504030201));
    assert_eq!(cs.sampling_fingerprint(), cs.sampling_fingerprint());
    assert_eq!(Node::Root(UnitKey()).sampling_fingerprint(), None);
    assert_eq!(Node::PublishedBookmarks(UnitKey()).sampling_fingerprint(), None);
    assert_eq!(Node::Bookmark(BookmarkName::new("main").unwrap()).sampling_fingerprint(), None);
    assert_eq!(Node::HgFileEnvelope(HgFileNodeId(h20(0x10))).sampling_fingerprint(), Some(0x1716151413121110));
}

#[test]
fn parsing_round_trips() {
    let cs = Node::Changeset(ChangesetKey { inner: ChangesetId(h32(5)), filenode_known_derived: true });
    let text = cs.key_string().unwrap();
    let parsed = NodeType::Changeset.parse_node(&text).unwrap();
    assert_eq!(parsed, cs);
    let hg = Node::HgFileEnvelope(HgFileNodeId(h20(200)));
    assert_eq!(NodeType::HgFileEnvelope.parse_node(&hg.key_string().unwrap()).unwrap(), hg);
    let main = Node::Bookmark(BookmarkName::new("main").unwrap());
    assert_eq!(NodeType::Bookmark.parse_node("main").unwrap(), main);
    let upper = NodeType::PhaseMapping.parse_node(&hex(&h32(0xa0).bytes).to_uppercase()).unwrap();
    assert_eq!(upper, Node::PhaseMapping(ChangesetId(h32(0xa0))));
    assert_eq!(Node::Root(UnitKey()).key_string(), None);
}

#[test]
fn parse_refuses_what_it_cannot_read() {
    assert_eq!(NodeType::Root.parse_node("anything"), Err(ParseError::Unsupported(NodeType::Root)));
    assert_eq!(
        NodeType::HgManifest.parse_node("abc"),
        Err(ParseError::Unsupported(NodeType::HgManifest))
    );
    assert_eq!(NodeType::Changeset.parse_node("abc"), Err(ParseError::Malformed(NodeType::Changeset)));
    let bad = "zz".repeat(32);
    assert_eq!(NodeType::Changeset.parse_node(&bad), Err(ParseError::Malformed(NodeType::Changeset)));
    assert_eq!(NodeType::Bookmark.parse_node("mäin"), Err(ParseError::Malformed(NodeType::Bookmark)));
}

#[test]
fn unode_flags_combine() {
    let both = UnodeFlags::blame().union(UnodeFlags::fastlog());
    assert_eq!(both.bits, 3);
    assert!(both.contains(UnodeFlags::blame()));
    assert!(!UnodeFlags::blame().contains(UnodeFlags::fastlog()));
    assert!(UnodeFlags::none().contains(UnodeFlags::none()));
}

fn expected_shard(p: &[u8], shards: usize) -> usize {
    let mut mac = <Blake2bMac<U32> as Mac>::new_from_slice(b"path").unwrap();
    mac.update(p);
    let digest = mac.finalize().into_bytes();
    let raw = digest.iter().fold(0usize, |h, b| h.rotate_left(8) ^ (*b as usize));
    raw % shards
}

#[test]
fn filenode_shard_is_stable_across_runs() {
    let first_run = ahash::RandomState::new();
    let second_run = ahash::RandomState::new();
    let node_in = |state: &ahash::RandomState| {
        Node::HgFileNode(PathKey::new(HgFileNodeId(h20(1)), path(state, "a/b.txt")))
    };
    let info = capped(Some(8));
    let a = node_in(&first_run).sql_shard(&info);
    assert_eq!(a, node_in(&first_run).sql_shard(&info));
    assert_eq!(a, node_in(&second_run).sql_shard(&info));
    assert_eq!(a, Some(SqlShard::HgFileNode(expected_shard(b"a/b.txt", 8))));
    let root_manifest = Node::HgManifestFileNode(PathKey::new(HgFileNodeId(h20(1)), WrappedPath::Root));
    assert_eq!(root_manifest.sql_shard(&info), Some(SqlShard::HgFileNode(expected_shard(b"", 8))));
    assert_eq!(
        node_in(&first_run).sql_shard(&capped(None)),
        Some(SqlShard::HgFileNode(0))
    );
}

#[test]
fn shards_are_only_reported_under_a_cap() {
    let state = ahash::RandomState::new();
    let uncapped = SqlShardInfo {
        filenodes: SqlTierInfo { tier_name: "filenodes".to_string(), shard_num: Some(8) },
        active_keys_per_shard: None,
    };
    let nodes = vec![
        Node::Root(UnitKey()),
        Node::Bookmark(BookmarkName::new("main").unwrap()),
        Node::HgFileNode(PathKey::new(HgFileNodeId(h20(1)), path(&state, "f"))),
        Node::FileContent(ContentId(h32(2))),
    ];
    let zero_shards = SqlShardInfo {
        filenodes: SqlTierInfo { tier_name: "filenodes".to_string(), shard_num: Some(0) },
        active_keys_per_shard: None,
    };
    for n in &nodes {
        assert_eq!(n.sql_shard(&uncapped), None);
        assert_eq!(n.sql_shard(&zero_shards), None);
    }
    let info = capped(Some(8));
    assert_eq!(nodes[0].sql_shard(&info), None);
    assert_eq!(nodes[1].sql_shard(&info), Some(SqlShard::Metadata));
    assert_eq!(nodes[3].sql_shard(&info), None);
}

fn hg_id(p1: Option<[u8; 20]>, p2: Option<[u8; 20]>, text: &[u8]) -> [u8; 20] {
    let a = p1.unwrap_or([0u8; 20]);
    let b = p2.unwrap_or([0u8; 20]);
    let (x, y) = if b < a { (b, a) } else { (a, b) };
    let mut hasher = Sha1::new();
    hasher.update(x);
    hasher.update(y);
    hasher.update(text);
    hasher.finalize().into()
}

fn envelope(p1: Option<HgFileNodeId>, content: &[u8]) -> HgFileEnvelope {
    HgFileEnvelope {
        p1,
        p2: None,
        content_id: ContentId(h32(50)),
        content_size: content.len() as u64,
        metadata: b"\x01\ncopy: a\n\x01\n".to_vec(),
    }
}

#[test]
fn envelope_hash_validates() {
    let content = b"hello world\n";
    let parent = HgFileNodeId(h20(0xf0));
    let env = envelope(Some(parent), content);
    let mut text = env.metadata.clone();
    text.extend_from_slice(content);
    let id = HgFileNodeId(Hash20 { bytes: hg_id(Some(parent.0.bytes), None, &text) });
    let node = Node::HgFileEnvelope(id);
    let data: NodeData<()> = NodeData::HgFileEnvelope(env.clone());
    assert_eq!(node.validate_hash(&data, Some(content)), Ok(()));
    assert_eq!(compute_hg_node_id(&Some(parent), &None, &env.metadata, content), id);
}

#[test]
fn truncated_content_fails_validation() {
    let content = b"hello world\n";
    let env = envelope(None, content);
    let mut text = env.metadata.clone();
    text.extend_from_slice(content);
    let id = HgFileNodeId(Hash20 { bytes: hg_id(None, None, &text) });
    let node = Node::HgFileEnvelope(id);
    let data: NodeData<()> = NodeData::HgFileEnvelope(env.clone());
    let truncated = &content[..5];
    let mut short_text = env.metadata.clone();
    short_text.extend_from_slice(truncated);
    let actual = HgFileNodeId(Hash20 { bytes: hg_id(None, None, &short_text) });
    assert_eq!(
        node.validate_hash(&data, Some(truncated)),
        Err(ValidationError::Mismatch { expected: id, actual })
    );
    assert_eq!(
        node.validate_hash(&data, None),
        Err(ValidationError::ContentMissing { content: env.content_id, filenode: id })
    );
}

#[test]
fn validation_of_other_kinds_is_unsupported() {
    let node = Node::FileContent(ContentId(h32(1)));
    let data: NodeData<()> = NodeData::FileContent(FileContentData::Consumed(3));
    assert_eq!(
        node.validate_hash(&data, Some(b"abc")),
        Err(ValidationError::Unsupported(NodeType::FileContent))
    );
}

#[test]
fn fetch_outcomes_become_sentinels() {
    let node = Node::FileContent(ContentId(h32(1)));
    let missing: NodeData<()> = NodeData::from_fetch(node.clone(), FetchOutcome::NotFound);
    assert!(matches!(missing, NodeData::MissingAsData(n) if n == node));
    let failed: NodeData<()> = NodeData::from_fetch(node.clone(), FetchOutcome::Failed);
    assert!(matches!(failed, NodeData::ErrorAsData(n) if n == node));
    let found: NodeData<()> =
        NodeData::from_fetch(node, FetchOutcome::Found(NodeData::AliasContentMapping(ContentId(h32(2)))));
    assert!(matches!(found, NodeData::AliasContentMapping(c) if c == ContentId(h32(2))));
}

#[test]
fn schema_compiler_refuses_bad_schemas() {
    let no_root = Schema::compile(&vec![KindDecl::new("Foo", KeyType::Number, vec![])]);
    assert_eq!(no_root, Err(CompileError::MissingRoot));
    assert_eq!(Schema::compile(&vec![]), Err(CompileError::MissingRoot));
    let orphan = Schema::compile(&vec![KindDecl::new("Root", KeyType::Unit, vec![TargetDecl::plain("Foo")])]);
    assert_eq!(orphan, Err(CompileError::OrphanTarget("Foo".to_string())));
    let dup_kind = Schema::compile(&vec![
        KindDecl::new("Root", KeyType::Unit, vec![]),
        KindDecl::new("Foo", KeyType::Number, vec![]),
        KindDecl::new("Foo", KeyType::Number, vec![]),
    ]);
    assert_eq!(dup_kind, Err(CompileError::DuplicateKind("Foo".to_string())));
    let dup_edge = Schema::compile(&vec![
        KindDecl::new("Root", KeyType::Unit, vec![TargetDecl::plain("Foo")]),
        KindDecl::new("Foo", KeyType::Number, vec![TargetDecl::plain("Foo"), TargetDecl::relabelled("Foo", "Root")]),
    ]);
    assert_eq!(dup_edge, Err(CompileError::DuplicateEdge("FooToFoo".to_string())));
}

#[test]
fn schema_compiler_relabels_and_finds_root_edges() {
    let s = Schema::compile(&vec![
        KindDecl::new("Root", KeyType::Unit, vec![TargetDecl::plain("Foo")]),
        KindDecl::new("Foo", KeyType::Number, vec![TargetDecl::relabelled("Parent", "Foo"), TargetDecl::plain("Bar")]),
        KindDecl::new("Bar", KeyType::Number, vec![]),
    ])
    .unwrap();
    let foo = s.kind_index("Foo").unwrap();
    let bar = s.kind_index("Bar").unwrap();
    let parent = s.edge_index("FooToParent").unwrap();
    assert_eq!(s.incoming_type(parent), Some(foo));
    assert_eq!(s.outgoing_type(parent), foo);
    assert_eq!(s.root_edge_type(foo), s.edge_index("RootToFoo"));
    assert_eq!(s.root_edge_type(bar), None);
    assert_eq!(s.edge_index("FooToFoo"), None);
    assert_eq!(s.parse_node(0, "1"), Err(KeyParseError::Unsupported(0)));
    assert_eq!(s.parse_node(bar, "4294967296"), Err(KeyParseError::Malformed(bar)));
    assert_eq!(s.parse_node(bar, "12a"), Err(KeyParseError::Malformed(bar)));
    assert_eq!(s.parse_node(bar, ""), Err(KeyParseError::Malformed(bar)));
    assert!(s.parse_node(bar, "4294967295").is_ok());
}

#[test]
fn fast_forward_rule() {
    let targets = BookmarkUpdateTargets { old: ChangesetId(h32(1)), new: ChangesetId(h32(2)) };
    let same = BookmarkUpdateTargets { old: ChangesetId(h32(1)), new: ChangesetId(h32(1)) };
    let ff = BookmarkUpdatePolicy::FastForwardOnly;
    let any = BookmarkUpdatePolicy::AnyPermittedByConfig;
    assert!(ff.needs_ancestry_check(false, &targets));
    assert!(!ff.needs_ancestry_check(false, &same));
    assert!(!any.needs_ancestry_check(false, &targets));
    assert!(any.needs_ancestry_check(true, &targets));
    assert_eq!(
        ff.check_update_permitted(false, &targets, false),
        Err(BookmarkMovementError::NonFastForwardMove { from: targets.old, to: targets.new })
    );
    assert_eq!(ff.check_update_permitted(false, &targets, true), Ok(()));
    assert_eq!(any.check_update_permitted(false, &targets, false), Ok(()));
}

#[test]
fn derived_data_names() {
    assert_eq!(NodeType::Root.derived_data_name(), None);
    assert_eq!(NodeType::UnodeFile.derived_data_name(), Some("unodes"));
    assert_eq!(NodeType::HgFileNode.derived_data_name(), Some("filenodes"));
    assert_eq!(NodeType::Changeset.as_str(), "Changeset");
    assert!(NodeType::HgManifest.allow_repo_path());
    assert!(!NodeType::UnodeMapping.allow_repo_path());
}

#[test]
fn ids_parse_from_hex() {
    let id = h20(0x3c);
    assert_eq!(HgChangesetId::from_hex(&hex(&id.bytes)), Some(HgChangesetId(id)));
    assert_eq!(HgChangesetId::from_hex("00"), None);
    assert_eq!(ChangesetId(h32(0)).to_hex(), hex(&h32(0).bytes));
    assert_eq!(ChangesetId(h32(0)).blobstore_key(), format!("changeset.blake2.{}", hex(&h32(0).bytes)));
}

#[test]
fn unode_flags_gate_blame_and_fastlog_edges() {
    let bare = Node::UnodeFile(UnodeKey { inner: FileUnodeId(h32(1)), flags: UnodeFlags::none() });
    let edges = bare.enabled_edges();
    assert!(!edges.contains(&EdgeType::UnodeFileToBlame));
    assert!(!edges.contains(&EdgeType::UnodeFileToFastlogFile));
    assert!(edges.contains(&EdgeType::UnodeFileToFileContent));
    let full = Node::UnodeFile(UnodeKey {
        inner: FileUnodeId(h32(1)),
        flags: UnodeFlags::blame().union(UnodeFlags::fastlog()),
    });
    assert_eq!(full.enabled_edges(), NodeType::UnodeFile.outgoing_edges());
    let dir = Node::UnodeManifest(UnodeKey {
        inner: walker_graph::ids::ManifestUnodeId(h32(1)),
        flags: UnodeFlags::blame(),
    });
    assert!(!dir.enabled_edges().contains(&EdgeType::UnodeManifestToFastlogDir));
    assert_eq!(dir.enabled_edges().len(), NodeType::UnodeManifest.outgoing_edges().len() - 1);
}
