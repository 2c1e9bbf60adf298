//! A step of the walk, and how the repository path evolves along it.
use crate::node::Node;
use crate::path::{WrappedPath, WrappedPathHash};
use crate::schema::EdgeType;
use vstd::prelude::*;

verus! {

/// An edge the walker may follow: its kind, the node it leads to, and the
/// target's path when the step itself knows it (a commit's file entry, say).
#[derive(Clone, Debug, PartialEq, Eq)]
pub struct OutgoingEdge {
    pub label: EdgeType,
    pub target: Node,
    pub path: Option<WrappedPath>,
}

impl OutgoingEdge {
    pub fn new(label: EdgeType, target: Node) -> (r: OutgoingEdge)
        ensures
            r.label == label,
            r.target == target,
            r.path is None,
    {
        OutgoingEdge { label, target, path: None }
    }

    pub fn new_with_path(label: EdgeType, target: Node, path: WrappedPath) -> (r: OutgoingEdge)
        ensures
            r.label == label,
            r.target == target,
            r.path == Some(path),
    {
        OutgoingEdge { label, target, path: Some(path) }
    }
}

/// The path a step resolves to: none if the target's kind disallows paths;
/// otherwise, in strict order of precedence, the path the edge carries, the
/// path in the target's identity, and the route's path.
pub open spec fn evolved_path(route: Option<WrappedPath>, edge: OutgoingEdge) -> Option<
    WrappedPath,
> {
    if !edge.target.kind().allows_path() {
        None
    } else {
        match edge.path {
            Some(p) => Some(p),
            None => match edge.target.identity_path() {
                Some(p) => Some(p),
                None => route,
            },
        }
    }
}

/// The same rule over path hashes.
pub open spec fn evolved_hash(route: Option<WrappedPathHash>, edge: OutgoingEdge) -> Option<
    WrappedPathHash,
> {
    if !edge.target.kind().allows_path() {
        None
    } else {
        match edge.path {
            Some(p) => Some(p.path_hash()),
            None => match edge.target.identity_path() {
                Some(p) => Some(p.path_hash()),
                None => route,
            },
        }
    }
}

pub open spec fn deref_path(o: Option<&WrappedPath>) -> Option<WrappedPath> {
    match o {
        Some(p) => Some(*p),
        None => None,
    }
}

pub open spec fn hash_of_path(o: Option<WrappedPath>) -> Option<WrappedPathHash> {
    match o {
        Some(p) => Some(p.path_hash()),
        None => None,
    }
}

impl WrappedPath {
    /// Resolves the path of the step to `walk_item`, given the route's path.
    pub fn evolve_path<'a>(from_route: Option<&'a WrappedPath>, walk_item: &'a OutgoingEdge) -> (r:
        Option<&'a WrappedPath>)
        ensures
            deref_path(r) == evolved_path(deref_path(from_route), *walk_item),
    {
        if !walk_item.target.get_type().allow_repo_path() {
            return None;
        }
        match &walk_item.path {
            Some(from_step) => Some(from_step),
            None => match walk_item.target.stats_path() {
                Some(from_node) => Some(from_node),
                None => from_route,
            },
        }
    }
}

impl WrappedPathHash {
    /// Resolves the path hash of the step to `walk_item`, given the route's.
    pub fn evolve_path(from_route: Option<WrappedPathHash>, walk_item: &OutgoingEdge) -> (r: Option<
        WrappedPathHash,
    >)
        ensures
            r == evolved_hash(from_route, *walk_item),
    {
        if !walk_item.target.get_type().allow_repo_path() {
            return None;
        }
        match &walk_item.path {
            Some(from_step) => Some(from_step.get_path_hash()),
            None => match walk_item.target.stats_path() {
                Some(from_node) => Some(from_node.get_path_hash()),
                None => from_route,
            },
        }
    }
}

/// Path evolution takes, in this order: the edge's explicit path, the
/// target's identity path, and the inherited route path; and no path at all
/// where the target's kind disallows paths.
pub proof fn lemma_path_precedence(route: Option<WrappedPath>, edge: OutgoingEdge)
    ensures
        !edge.target.kind().allows_path() ==> evolved_path(route, edge) is None,
        edge.target.kind().allows_path() && edge.path is Some ==> evolved_path(route, edge)
            == edge.path,
        edge.target.kind().allows_path() && edge.path is None && edge.target.identity_path() is Some
            ==> evolved_path(route, edge) == edge.target.identity_path(),
        edge.target.kind().allows_path() && edge.path is None && edge.target.identity_path() is None
            ==> evolved_path(route, edge) == route,
{
}

/// Evolving path hashes gives the hash of the evolved path: the hash-only
/// rule never diverges from the full one.
pub proof fn lemma_hash_evolution_agrees(route: Option<WrappedPath>, edge: OutgoingEdge)
    ensures
        evolved_hash(hash_of_path(route), edge) == hash_of_path(evolved_path(route, edge)),
{
}

/// A node whose kind disallows paths always resolves to no path.
pub proof fn lemma_disallowed_kind_has_no_path(route: Option<WrappedPath>, edge: OutgoingEdge)
    requires
        !edge.target.kind().allows_path(),
    ensures
        evolved_path(route, edge) is None,
        evolved_hash(hash_of_path(route), edge) is None,
{
}

} // verus!
