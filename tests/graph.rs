use std::collections::HashSet;
use std::mem::size_of;

use walker_graph::compiler::{KeyParseError, KeyType, KeyValue, KindDecl, Schema, SchemaNode, TargetDecl};
use walker_graph::node::Node;
use walker_graph::schema::NodeType;

#[test]
fn test_node_size() {
    // Node size is important as we have lots of them, add a test to check for accidental changes
    assert_eq!(48, size_of::<Node>());
}

#[test]
fn test_node_type_max_ordinal() {
    for t in NodeType::all() {
        assert!((t as usize) < NodeType::COUNT)
    }
}

#[test]
fn test_small_graphs() -> Result<(), KeyParseError> {
    let test1 = Schema::compile(&vec![
        KindDecl::new("Root", KeyType::Unit, vec![TargetDecl::plain("Foo")]),
        KindDecl::new("Foo", KeyType::Number, vec![]),
    ])
    .unwrap();
    let root1 = test1.kind_index("Root").unwrap();
    let foo1 = test1.kind_index("Foo").unwrap();
    assert_eq!(root1, SchemaNode::new(root1, KeyValue::Unit).get_type());
    assert_eq!(foo1, SchemaNode::new(foo1, KeyValue::Number(42)).get_type());
    let root_to_foo1 = test1.edge_index("RootToFoo").unwrap();
    assert_eq!(test1.incoming_type(root_to_foo1), None);
    assert_eq!(test1.outgoing_type(root_to_foo1), foo1);
    assert_eq!(
        test1.parse_node(foo1, "123")?,
        SchemaNode::new(foo1, KeyValue::Number(123))
    );

    // Make sure type names don't clash
    let test2 = Schema::compile(&vec![
        KindDecl::new(
            "Root",
            KeyType::Unit,
            vec![TargetDecl::plain("Foo"), TargetDecl::plain("Bar")],
        ),
        KindDecl::new("Foo", KeyType::Number, vec![TargetDecl::plain("Bar")]),
        KindDecl::new("Bar", KeyType::Number, vec![]),
    ])
    .unwrap();
    let root2 = test2.kind_index("Root").unwrap();
    let foo2 = test2.kind_index("Foo").unwrap();
    let bar2 = test2.kind_index("Bar").unwrap();
    assert_eq!(root2, SchemaNode::new(root2, KeyValue::Unit).get_type());
    assert_eq!(foo2, SchemaNode::new(foo2, KeyValue::Number(42)).get_type());
    assert_eq!(bar2, SchemaNode::new(bar2, KeyValue::Number(42)).get_type());
    let root_to_foo2 = test2.edge_index("RootToFoo").unwrap();
    let root_to_bar2 = test2.edge_index("RootToBar").unwrap();
    let foo_to_bar2 = test2.edge_index("FooToBar").unwrap();
    assert_eq!(test2.incoming_type(root_to_foo2), None);
    assert_eq!(test2.outgoing_type(root_to_foo2), foo2);
    assert_eq!(test2.incoming_type(root_to_bar2), None);
    assert_eq!(test2.outgoing_type(root_to_bar2), bar2);
    assert_eq!(test2.incoming_type(foo_to_bar2), Some(foo2));
    assert_eq!(test2.outgoing_type(foo_to_bar2), bar2);
    assert_eq!(
        test2.parse_node(bar2, "123")?,
        SchemaNode::new(bar2, KeyValue::Number(123))
    );
    Ok(())
}

/// The derived data types that a default test repository enables.
fn default_enabled_derived_data_types() -> HashSet<String> {
    [
        "blame",
        "changeset_info",
        "deleted_manifest",
        "fastlog",
        "filenodes",
        "fsnodes",
        "git_trees",
        "hgchangesets",
        "skeleton_manifests",
        "unodes",
    ]
    .iter()
    .map(|s| s.to_string())
    .collect()
}

#[test]
fn test_all_derived_data_types_supported() {
    // All types a repository can support
    let a = default_enabled_derived_data_types();

    // supported in graph
    let mut s = HashSet::new();
    for t in NodeType::all() {
        if let Some(d) = t.derived_data_name() {
            assert!(
                a.contains(d),
                "graph derived data type {} for {} is not known by default_test_repo_config()",
                d,
                t.as_str()
            );
            s.insert(d);
        }
    }

    // A derived data type added to the repository should be added to the walker graph rather
    // than to this list, otherwise it won't get scrubbed.
    let grandfathered: HashSet<&'static str> = vec!["git_trees"].into_iter().collect();
    let mut missing = HashSet::new();
    for t in &a {
        if s.contains(t.as_str()) {
            assert!(
                !grandfathered.contains(t.as_str()),
                "You've added support for {}, please remove it from the grandfathered missing set",
                t
            );
        } else if !grandfathered.contains(t.as_str()) {
            missing.insert(t);
        }
    }
    assert!(
        missing.is_empty(),
        "blobrepo derived data types {:?} not supported by walker graph",
        missing,
    );
}
