//! The closed sets of node kinds and edge kinds of the repository graph,
//! with the lookups the walker drives its traversal by.
use vstd::prelude::*;

verus! {

/// Every kind of node in the graph. `Root` is the synthetic traversal seed.
#[derive(Clone, Copy, Debug, PartialEq, Eq, Hash, Structural)]
pub enum NodeType {
    Root,
    Bookmark,
    Changeset,
    BonsaiHgMapping,
    PhaseMapping,
    PublishedBookmarks,
    HgBonsaiMapping,
    HgChangeset,
    HgChangesetViaBonsai,
    HgManifest,
    HgFileEnvelope,
    HgFileNode,
    HgManifestFileNode,
    FileContent,
    FileContentMetadata,
    AliasContentMapping,
    Blame,
    ChangesetInfo,
    ChangesetInfoMapping,
    DeletedManifest,
    DeletedManifestMapping,
    Fsnode,
    FastlogBatch,
    FastlogDir,
    FastlogFile,
    FsnodeMapping,
    SkeletonManifest,
    SkeletonManifestMapping,
    UnodeFile,
    UnodeManifest,
    UnodeMapping,
}

/// Every legal transition. The name is `SourceToLabel`, where the label is
/// the target kind unless the declaration relabels it.
#[derive(Clone, Copy, Debug, PartialEq, Eq, Hash, Structural)]
pub enum EdgeType {
    RootToBookmark,
    RootToChangeset,
    RootToBonsaiHgMapping,
    RootToPhaseMapping,
    RootToPublishedBookmarks,
    RootToHgBonsaiMapping,
    RootToHgChangeset,
    RootToHgChangesetViaBonsai,
    RootToHgManifest,
    RootToHgFileEnvelope,
    RootToHgFileNode,
    RootToHgManifestFileNode,
    RootToFileContent,
    RootToFileContentMetadata,
    RootToAliasContentMapping,
    RootToBlame,
    RootToChangesetInfo,
    RootToChangesetInfoMapping,
    RootToDeletedManifest,
    RootToDeletedManifestMapping,
    RootToFastlogBatch,
    RootToFastlogDir,
    RootToFastlogFile,
    RootToFsnode,
    RootToFsnodeMapping,
    RootToSkeletonManifest,
    RootToSkeletonManifestMapping,
    RootToUnodeFile,
    RootToUnodeManifest,
    RootToUnodeMapping,
    BookmarkToChangeset,
    BookmarkToBonsaiHgMapping,
    ChangesetToFileContent,
    ChangesetToBonsaiParent,
    ChangesetToBonsaiHgMapping,
    ChangesetToPhaseMapping,
    ChangesetToChangesetInfo,
    ChangesetToChangesetInfoMapping,
    ChangesetToDeletedManifestMapping,
    ChangesetToFsnodeMapping,
    ChangesetToSkeletonManifestMapping,
    ChangesetToUnodeMapping,
    BonsaiHgMappingToHgBonsaiMapping,
    BonsaiHgMappingToHgChangesetViaBonsai,
    PublishedBookmarksToChangeset,
    PublishedBookmarksToBonsaiHgMapping,
    HgBonsaiMappingToChangeset,
    HgChangesetToHgParent,
    HgChangesetToHgManifest,
    HgChangesetToHgManifestFileNode,
    HgChangesetViaBonsaiToHgChangeset,
    HgManifestToHgFileEnvelope,
    HgManifestToHgFileNode,
    HgManifestToHgManifestFileNode,
    HgManifestToChildHgManifest,
    HgFileEnvelopeToFileContent,
    HgFileNodeToLinkedHgBonsaiMapping,
    HgFileNodeToLinkedHgChangeset,
    HgFileNodeToHgParentFileNode,
    HgFileNodeToHgCopyfromFileNode,
    HgManifestFileNodeToLinkedHgBonsaiMapping,
    HgManifestFileNodeToLinkedHgChangeset,
    HgManifestFileNodeToHgParentFileNode,
    HgManifestFileNodeToHgCopyfromFileNode,
    FileContentToFileContentMetadata,
    FileContentMetadataToSha1Alias,
    FileContentMetadataToSha256Alias,
    FileContentMetadataToGitSha1Alias,
    AliasContentMappingToFileContent,
    BlameToChangeset,
    ChangesetInfoToChangesetInfoParent,
    ChangesetInfoMappingToChangesetInfo,
    DeletedManifestToDeletedManifestChild,
    DeletedManifestToLinkedChangeset,
    DeletedManifestMappingToRootDeletedManifest,
    FsnodeToChildFsnode,
    FsnodeToFileContent,
    FastlogBatchToChangeset,
    FastlogBatchToPreviousBatch,
    FastlogDirToChangeset,
    FastlogDirToPreviousBatch,
    FastlogFileToChangeset,
    FastlogFileToPreviousBatch,
    FsnodeMappingToRootFsnode,
    SkeletonManifestToSkeletonManifestChild,
    SkeletonManifestMappingToRootSkeletonManifest,
    UnodeFileToBlame,
    UnodeFileToFastlogFile,
    UnodeFileToFileContent,
    UnodeFileToLinkedChangeset,
    UnodeFileToUnodeFileParent,
    UnodeManifestToFastlogDir,
    UnodeManifestToUnodeFileChild,
    UnodeManifestToUnodeManifestChild,
    UnodeManifestToUnodeManifestParent,
    UnodeManifestToLinkedChangeset,
    UnodeMappingToRootUnodeManifest,
}

impl NodeType {
    pub const COUNT: usize = 31;

    /// All node kinds, in declaration order.
    pub open spec fn all_spec() -> Seq<NodeType> {
        seq![NodeType::Root, NodeType::Bookmark, NodeType::Changeset, NodeType::BonsaiHgMapping, NodeType::PhaseMapping, NodeType::PublishedBookmarks, NodeType::HgBonsaiMapping, NodeType::HgChangeset, NodeType::HgChangesetViaBonsai, NodeType::HgManifest, NodeType::HgFileEnvelope, NodeType::HgFileNode, NodeType::HgManifestFileNode, NodeType::FileContent, NodeType::FileContentMetadata, NodeType::AliasContentMapping, NodeType::Blame, NodeType::ChangesetInfo, NodeType::ChangesetInfoMapping, NodeType::DeletedManifest, NodeType::DeletedManifestMapping, NodeType::Fsnode, NodeType::FastlogBatch, NodeType::FastlogDir, NodeType::FastlogFile, NodeType::FsnodeMapping, NodeType::SkeletonManifest, NodeType::SkeletonManifestMapping, NodeType::UnodeFile, NodeType::UnodeManifest, NodeType::UnodeMapping]
    }

    /// All node kinds, in declaration order.
    pub fn all() -> (r: Vec<NodeType>)
        ensures
            r@ == Self::all_spec(),
    {
        vec![NodeType::Root, NodeType::Bookmark, NodeType::Changeset, NodeType::BonsaiHgMapping, NodeType::PhaseMapping, NodeType::PublishedBookmarks, NodeType::HgBonsaiMapping, NodeType::HgChangeset, NodeType::HgChangesetViaBonsai, NodeType::HgManifest, NodeType::HgFileEnvelope, NodeType::HgFileNode, NodeType::HgManifestFileNode, NodeType::FileContent, NodeType::FileContentMetadata, NodeType::AliasContentMapping, NodeType::Blame, NodeType::ChangesetInfo, NodeType::ChangesetInfoMapping, NodeType::DeletedManifest, NodeType::DeletedManifestMapping, NodeType::Fsnode, NodeType::FastlogBatch, NodeType::FastlogDir, NodeType::FastlogFile, NodeType::FsnodeMapping, NodeType::SkeletonManifest, NodeType::SkeletonManifestMapping, NodeType::UnodeFile, NodeType::UnodeManifest, NodeType::UnodeMapping]
    }

    /// The edges that the declaration of this kind lists, in order.
    pub open spec fn declared_edges(self) -> Seq<EdgeType> {
        match self {
            NodeType::Root => seq![EdgeType::RootToBookmark, EdgeType::RootToChangeset, EdgeType::RootToBonsaiHgMapping, EdgeType::RootToPhaseMapping, EdgeType::RootToPublishedBookmarks, EdgeType::RootToHgBonsaiMapping, EdgeType::RootToHgChangeset, EdgeType::RootToHgChangesetViaBonsai, EdgeType::RootToHgManifest, EdgeType::RootToHgFileEnvelope, EdgeType::RootToHgFileNode, EdgeType::RootToHgManifestFileNode, EdgeType::RootToFileContent, EdgeType::RootToFileContentMetadata, EdgeType::RootToAliasContentMapping, EdgeType::RootToBlame, EdgeType::RootToChangesetInfo, EdgeType::RootToChangesetInfoMapping, EdgeType::RootToDeletedManifest, EdgeType::RootToDeletedManifestMapping, EdgeType::RootToFastlogBatch, EdgeType::RootToFastlogDir, EdgeType::RootToFastlogFile, EdgeType::RootToFsnode, EdgeType::RootToFsnodeMapping, EdgeType::RootToSkeletonManifest, EdgeType::RootToSkeletonManifestMapping, EdgeType::RootToUnodeFile, EdgeType::RootToUnodeManifest, EdgeType::RootToUnodeMapping],
            NodeType::Bookmark => seq![EdgeType::BookmarkToChangeset, EdgeType::BookmarkToBonsaiHgMapping],
            NodeType::Changeset => seq![EdgeType::ChangesetToFileContent, EdgeType::ChangesetToBonsaiParent, EdgeType::ChangesetToBonsaiHgMapping, EdgeType::ChangesetToPhaseMapping, EdgeType::ChangesetToChangesetInfo, EdgeType::ChangesetToChangesetInfoMapping, EdgeType::ChangesetToDeletedManifestMapping, EdgeType::ChangesetToFsnodeMapping, EdgeType::ChangesetToSkeletonManifestMapping, EdgeType::ChangesetToUnodeMapping],
            NodeType::BonsaiHgMapping => seq![EdgeType::BonsaiHgMappingToHgBonsaiMapping, EdgeType::BonsaiHgMappingToHgChangesetViaBonsai],
            NodeType::PhaseMapping => Seq::empty(),
            NodeType::PublishedBookmarks => seq![EdgeType::PublishedBookmarksToChangeset, EdgeType::PublishedBookmarksToBonsaiHgMapping],
            NodeType::HgBonsaiMapping => seq![EdgeType::HgBonsaiMappingToChangeset],
            NodeType::HgChangeset => seq![EdgeType::HgChangesetToHgParent, EdgeType::HgChangesetToHgManifest, EdgeType::HgChangesetToHgManifestFileNode],
            NodeType::HgChangesetViaBonsai => seq![EdgeType::HgChangesetViaBonsaiToHgChangeset],
            NodeType::HgManifest => seq![EdgeType::HgManifestToHgFileEnvelope, EdgeType::HgManifestToHgFileNode, EdgeType::HgManifestToHgManifestFileNode, EdgeType::HgManifestToChildHgManifest],
            NodeType::HgFileEnvelope => seq![EdgeType::HgFileEnvelopeToFileContent],
            NodeType::HgFileNode => seq![EdgeType::HgFileNodeToLinkedHgBonsaiMapping, EdgeType::HgFileNodeToLinkedHgChangeset, EdgeType::HgFileNodeToHgParentFileNode, EdgeType::HgFileNodeToHgCopyfromFileNode],
            NodeType::HgManifestFileNode => seq![EdgeType::HgManifestFileNodeToLinkedHgBonsaiMapping, EdgeType::HgManifestFileNodeToLinkedHgChangeset, EdgeType::HgManifestFileNodeToHgParentFileNode, EdgeType::HgManifestFileNodeToHgCopyfromFileNode],
            NodeType::FileContent => seq![EdgeType::FileContentToFileContentMetadata],
            NodeType::FileContentMetadata => seq![EdgeType::FileContentMetadataToSha1Alias, EdgeType::FileContentMetadataToSha256Alias, EdgeType::FileContentMetadataToGitSha1Alias],
            NodeType::AliasContentMapping => seq![EdgeType::AliasContentMappingToFileContent],
            NodeType::Blame => seq![EdgeType::BlameToChangeset],
            NodeType::ChangesetInfo => seq![EdgeType::ChangesetInfoToChangesetInfoParent],
            NodeType::ChangesetInfoMapping => seq![EdgeType::ChangesetInfoMappingToChangesetInfo],
            NodeType::DeletedManifest => seq![EdgeType::DeletedManifestToDeletedManifestChild, EdgeType::DeletedManifestToLinkedChangeset],
            NodeType::DeletedManifestMapping => seq![EdgeType::DeletedManifestMappingToRootDeletedManifest],
            NodeType::Fsnode => seq![EdgeType::FsnodeToChildFsnode, EdgeType::FsnodeToFileContent],
            NodeType::FastlogBatch => seq![EdgeType::FastlogBatchToChangeset, EdgeType::FastlogBatchToPreviousBatch],
            NodeType::FastlogDir => seq![EdgeType::FastlogDirToChangeset, EdgeType::FastlogDirToPreviousBatch],
            NodeType::FastlogFile => seq![EdgeType::FastlogFileToChangeset, EdgeType::FastlogFileToPreviousBatch],
            NodeType::FsnodeMapping => seq![EdgeType::FsnodeMappingToRootFsnode],
            NodeType::SkeletonManifest => seq![EdgeType::SkeletonManifestToSkeletonManifestChild],
            NodeType::SkeletonManifestMapping => seq![EdgeType::SkeletonManifestMappingToRootSkeletonManifest],
            NodeType::UnodeFile => seq![EdgeType::UnodeFileToBlame, EdgeType::UnodeFileToFastlogFile, EdgeType::UnodeFileToFileContent, EdgeType::UnodeFileToLinkedChangeset, EdgeType::UnodeFileToUnodeFileParent],
            NodeType::UnodeManifest => seq![EdgeType::UnodeManifestToFastlogDir, EdgeType::UnodeManifestToUnodeFileChild, EdgeType::UnodeManifestToUnodeManifestChild, EdgeType::UnodeManifestToUnodeManifestParent, EdgeType::UnodeManifestToLinkedChangeset],
            NodeType::UnodeMapping => seq![EdgeType::UnodeMappingToRootUnodeManifest],
        }
    }

    /// The edges that leave a node of this kind.
    pub fn outgoing_edges(&self) -> (r: Vec<EdgeType>)
        ensures
            r@ == self.declared_edges(),
    {
        match self {
            NodeType::Root => vec![EdgeType::RootToBookmark, EdgeType::RootToChangeset, EdgeType::RootToBonsaiHgMapping, EdgeType::RootToPhaseMapping, EdgeType::RootToPublishedBookmarks, EdgeType::RootToHgBonsaiMapping, EdgeType::RootToHgChangeset, EdgeType::RootToHgChangesetViaBonsai, EdgeType::RootToHgManifest, EdgeType::RootToHgFileEnvelope, EdgeType::RootToHgFileNode, EdgeType::RootToHgManifestFileNode, EdgeType::RootToFileContent, EdgeType::RootToFileContentMetadata, EdgeType::RootToAliasContentMapping, EdgeType::RootToBlame, EdgeType::RootToChangesetInfo, EdgeType::RootToChangesetInfoMapping, EdgeType::RootToDeletedManifest, EdgeType::RootToDeletedManifestMapping, EdgeType::RootToFastlogBatch, EdgeType::RootToFastlogDir, EdgeType::RootToFastlogFile, EdgeType::RootToFsnode, EdgeType::RootToFsnodeMapping, EdgeType::RootToSkeletonManifest, EdgeType::RootToSkeletonManifestMapping, EdgeType::RootToUnodeFile, EdgeType::RootToUnodeManifest, EdgeType::RootToUnodeMapping],
            NodeType::Bookmark => vec![EdgeType::BookmarkToChangeset, EdgeType::BookmarkToBonsaiHgMapping],
            NodeType::Changeset => vec![EdgeType::ChangesetToFileContent, EdgeType::ChangesetToBonsaiParent, EdgeType::ChangesetToBonsaiHgMapping, EdgeType::ChangesetToPhaseMapping, EdgeType::ChangesetToChangesetInfo, EdgeType::ChangesetToChangesetInfoMapping, EdgeType::ChangesetToDeletedManifestMapping, EdgeType::ChangesetToFsnodeMapping, EdgeType::ChangesetToSkeletonManifestMapping, EdgeType::ChangesetToUnodeMapping],
            NodeType::BonsaiHgMapping => vec![EdgeType::BonsaiHgMappingToHgBonsaiMapping, EdgeType::BonsaiHgMappingToHgChangesetViaBonsai],
            NodeType::PhaseMapping => vec![],
            NodeType::PublishedBookmarks => vec![EdgeType::PublishedBookmarksToChangeset, EdgeType::PublishedBookmarksToBonsaiHgMapping],
            NodeType::HgBonsaiMapping => vec![EdgeType::HgBonsaiMappingToChangeset],
            NodeType::HgChangeset => vec![EdgeType::HgChangesetToHgParent, EdgeType::HgChangesetToHgManifest, EdgeType::HgChangesetToHgManifestFileNode],
            NodeType::HgChangesetViaBonsai => vec![EdgeType::HgChangesetViaBonsaiToHgChangeset],
            NodeType::HgManifest => vec![EdgeType::HgManifestToHgFileEnvelope, EdgeType::HgManifestToHgFileNode, EdgeType::HgManifestToHgManifestFileNode, EdgeType::HgManifestToChildHgManifest],
            NodeType::HgFileEnvelope => vec![EdgeType::HgFileEnvelopeToFileContent],
            NodeType::HgFileNode => vec![EdgeType::HgFileNodeToLinkedHgBonsaiMapping, EdgeType::HgFileNodeToLinkedHgChangeset, EdgeType::HgFileNodeToHgParentFileNode, EdgeType::HgFileNodeToHgCopyfromFileNode],
            NodeType::HgManifestFileNode => vec![EdgeType::HgManifestFileNodeToLinkedHgBonsaiMapping, EdgeType::HgManifestFileNodeToLinkedHgChangeset, EdgeType::HgManifestFileNodeToHgParentFileNode, EdgeType::HgManifestFileNodeToHgCopyfromFileNode],
            NodeType::FileContent => vec![EdgeType::FileContentToFileContentMetadata],
            NodeType::FileContentMetadata => vec![EdgeType::FileContentMetadataToSha1Alias, EdgeType::FileContentMetadataToSha256Alias, EdgeType::FileContentMetadataToGitSha1Alias],
            NodeType::AliasContentMapping => vec![EdgeType::AliasContentMappingToFileContent],
            NodeType::Blame => vec![EdgeType::BlameToChangeset],
            NodeType::ChangesetInfo => vec![EdgeType::ChangesetInfoToChangesetInfoParent],
            NodeType::ChangesetInfoMapping => vec![EdgeType::ChangesetInfoMappingToChangesetInfo],
            NodeType::DeletedManifest => vec![EdgeType::DeletedManifestToDeletedManifestChild, EdgeType::DeletedManifestToLinkedChangeset],
            NodeType::DeletedManifestMapping => vec![EdgeType::DeletedManifestMappingToRootDeletedManifest],
            NodeType::Fsnode => vec![EdgeType::FsnodeToChildFsnode, EdgeType::FsnodeToFileContent],
            NodeType::FastlogBatch => vec![EdgeType::FastlogBatchToChangeset, EdgeType::FastlogBatchToPreviousBatch],
            NodeType::FastlogDir => vec![EdgeType::FastlogDirToChangeset, EdgeType::FastlogDirToPreviousBatch],
            NodeType::FastlogFile => vec![EdgeType::FastlogFileToChangeset, EdgeType::FastlogFileToPreviousBatch],
            NodeType::FsnodeMapping => vec![EdgeType::FsnodeMappingToRootFsnode],
            NodeType::SkeletonManifest => vec![EdgeType::SkeletonManifestToSkeletonManifestChild],
            NodeType::SkeletonManifestMapping => vec![EdgeType::SkeletonManifestMappingToRootSkeletonManifest],
            NodeType::UnodeFile => vec![EdgeType::UnodeFileToBlame, EdgeType::UnodeFileToFastlogFile, EdgeType::UnodeFileToFileContent, EdgeType::UnodeFileToLinkedChangeset, EdgeType::UnodeFileToUnodeFileParent],
            NodeType::UnodeManifest => vec![EdgeType::UnodeManifestToFastlogDir, EdgeType::UnodeManifestToUnodeFileChild, EdgeType::UnodeManifestToUnodeManifestChild, EdgeType::UnodeManifestToUnodeManifestParent, EdgeType::UnodeManifestToLinkedChangeset],
            NodeType::UnodeMapping => vec![EdgeType::UnodeMappingToRootUnodeManifest],
        }
    }

    /// The edge from `Root` that reaches this kind, if any.
    pub open spec fn root_edge(self) -> Option<EdgeType> {
        match self {
            NodeType::Root => None,
            NodeType::Bookmark => Some(EdgeType::RootToBookmark),
            NodeType::Changeset => Some(EdgeType::RootToChangeset),
            NodeType::BonsaiHgMapping => Some(EdgeType::RootToBonsaiHgMapping),
            NodeType::PhaseMapping => Some(EdgeType::RootToPhaseMapping),
            NodeType::PublishedBookmarks => Some(EdgeType::RootToPublishedBookmarks),
            NodeType::HgBonsaiMapping => Some(EdgeType::RootToHgBonsaiMapping),
            NodeType::HgChangeset => Some(EdgeType::RootToHgChangeset),
            NodeType::HgChangesetViaBonsai => Some(EdgeType::RootToHgChangesetViaBonsai),
            NodeType::HgManifest => Some(EdgeType::RootToHgManifest),
            NodeType::HgFileEnvelope => Some(EdgeType::RootToHgFileEnvelope),
            NodeType::HgFileNode => Some(EdgeType::RootToHgFileNode),
            NodeType::HgManifestFileNode => Some(EdgeType::RootToHgManifestFileNode),
            NodeType::FileContent => Some(EdgeType::RootToFileContent),
            NodeType::FileContentMetadata => Some(EdgeType::RootToFileContentMetadata),
            NodeType::AliasContentMapping => Some(EdgeType::RootToAliasContentMapping),
            NodeType::Blame => Some(EdgeType::RootToBlame),
            NodeType::ChangesetInfo => Some(EdgeType::RootToChangesetInfo),
            NodeType::ChangesetInfoMapping => Some(EdgeType::RootToChangesetInfoMapping),
            NodeType::DeletedManifest => Some(EdgeType::RootToDeletedManifest),
            NodeType::DeletedManifestMapping => Some(EdgeType::RootToDeletedManifestMapping),
            NodeType::Fsnode => Some(EdgeType::RootToFsnode),
            NodeType::FastlogBatch => Some(EdgeType::RootToFastlogBatch),
            NodeType::FastlogDir => Some(EdgeType::RootToFastlogDir),
            NodeType::FastlogFile => Some(EdgeType::RootToFastlogFile),
            NodeType::FsnodeMapping => Some(EdgeType::RootToFsnodeMapping),
            NodeType::SkeletonManifest => Some(EdgeType::RootToSkeletonManifest),
            NodeType::SkeletonManifestMapping => Some(EdgeType::RootToSkeletonManifestMapping),
            NodeType::UnodeFile => Some(EdgeType::RootToUnodeFile),
            NodeType::UnodeManifest => Some(EdgeType::RootToUnodeManifest),
            NodeType::UnodeMapping => Some(EdgeType::RootToUnodeMapping),
        }
    }

    pub fn root_edge_type(&self) -> (r: Option<EdgeType>)
        ensures
            r == self.root_edge(),
    {
        match self {
            NodeType::Root => None,
            NodeType::Bookmark => Some(EdgeType::RootToBookmark),
            NodeType::Changeset => Some(EdgeType::RootToChangeset),
            NodeType::BonsaiHgMapping => Some(EdgeType::RootToBonsaiHgMapping),
            NodeType::PhaseMapping => Some(EdgeType::RootToPhaseMapping),
            NodeType::PublishedBookmarks => Some(EdgeType::RootToPublishedBookmarks),
            NodeType::HgBonsaiMapping => Some(EdgeType::RootToHgBonsaiMapping),
            NodeType::HgChangeset => Some(EdgeType::RootToHgChangeset),
            NodeType::HgChangesetViaBonsai => Some(EdgeType::RootToHgChangesetViaBonsai),
            NodeType::HgManifest => Some(EdgeType::RootToHgManifest),
            NodeType::HgFileEnvelope => Some(EdgeType::RootToHgFileEnvelope),
            NodeType::HgFileNode => Some(EdgeType::RootToHgFileNode),
            NodeType::HgManifestFileNode => Some(EdgeType::RootToHgManifestFileNode),
            NodeType::FileContent => Some(EdgeType::RootToFileContent),
            NodeType::FileContentMetadata => Some(EdgeType::RootToFileContentMetadata),
            NodeType::AliasContentMapping => Some(EdgeType::RootToAliasContentMapping),
            NodeType::Blame => Some(EdgeType::RootToBlame),
            NodeType::ChangesetInfo => Some(EdgeType::RootToChangesetInfo),
            NodeType::ChangesetInfoMapping => Some(EdgeType::RootToChangesetInfoMapping),
            NodeType::DeletedManifest => Some(EdgeType::RootToDeletedManifest),
            NodeType::DeletedManifestMapping => Some(EdgeType::RootToDeletedManifestMapping),
            NodeType::Fsnode => Some(EdgeType::RootToFsnode),
            NodeType::FastlogBatch => Some(EdgeType::RootToFastlogBatch),
            NodeType::FastlogDir => Some(EdgeType::RootToFastlogDir),
            NodeType::FastlogFile => Some(EdgeType::RootToFastlogFile),
            NodeType::FsnodeMapping => Some(EdgeType::RootToFsnodeMapping),
            NodeType::SkeletonManifest => Some(EdgeType::RootToSkeletonManifest),
            NodeType::SkeletonManifestMapping => Some(EdgeType::RootToSkeletonManifestMapping),
            NodeType::UnodeFile => Some(EdgeType::RootToUnodeFile),
            NodeType::UnodeManifest => Some(EdgeType::RootToUnodeManifest),
            NodeType::UnodeMapping => Some(EdgeType::RootToUnodeMapping),
        }
    }

    /// Whether a node of this kind may carry a repository path.
    pub open spec fn allows_path(self) -> bool {
        match self {
            NodeType::Root => false,
            NodeType::Bookmark => false,
            NodeType::Changeset => false,
            NodeType::BonsaiHgMapping => false,
            NodeType::PhaseMapping => false,
            NodeType::PublishedBookmarks => false,
            NodeType::HgBonsaiMapping => false,
            NodeType::HgChangeset => false,
            NodeType::HgChangesetViaBonsai => false,
            NodeType::HgManifest => true,
            NodeType::HgFileEnvelope => true,
            NodeType::HgFileNode => true,
            NodeType::HgManifestFileNode => true,
            NodeType::FileContent => true,
            NodeType::FileContentMetadata => true,
            NodeType::AliasContentMapping => true,
            NodeType::Blame => false,
            NodeType::ChangesetInfo => false,
            NodeType::ChangesetInfoMapping => false,
            NodeType::DeletedManifest => true,
            NodeType::DeletedManifestMapping => false,
            NodeType::Fsnode => true,
            NodeType::FastlogBatch => true,
            NodeType::FastlogDir => true,
            NodeType::FastlogFile => true,
            NodeType::FsnodeMapping => false,
            NodeType::SkeletonManifest => true,
            NodeType::SkeletonManifestMapping => false,
            NodeType::UnodeFile => true,
            NodeType::UnodeManifest => true,
            NodeType::UnodeMapping => false,
        }
    }

    /// Only certain node kinds can have repository paths associated.
    pub fn allow_repo_path(&self) -> (r: bool)
        ensures
            r == self.allows_path(),
    {
        match self {
            NodeType::Root => false,
            NodeType::Bookmark => false,
            NodeType::Changeset => false,
            NodeType::BonsaiHgMapping => false,
            NodeType::PhaseMapping => false,
            NodeType::PublishedBookmarks => false,
            NodeType::HgBonsaiMapping => false,
            NodeType::HgChangeset => false,
            NodeType::HgChangesetViaBonsai => false,
            NodeType::HgManifest => true,
            NodeType::HgFileEnvelope => true,
            NodeType::HgFileNode => true,
            NodeType::HgManifestFileNode => true,
            NodeType::FileContent => true,
            NodeType::FileContentMetadata => true,
            NodeType::AliasContentMapping => true,
            NodeType::Blame => false,
            NodeType::ChangesetInfo => false,
            NodeType::ChangesetInfoMapping => false,
            NodeType::DeletedManifest => true,
            NodeType::DeletedManifestMapping => false,
            NodeType::Fsnode => true,
            NodeType::FastlogBatch => true,
            NodeType::FastlogDir => true,
            NodeType::FastlogFile => true,
            NodeType::FsnodeMapping => false,
            NodeType::SkeletonManifest => true,
            NodeType::SkeletonManifestMapping => false,
            NodeType::UnodeFile => true,
            NodeType::UnodeManifest => true,
            NodeType::UnodeMapping => false,
        }
    }

    /// The name of the derived data type that a kind belongs to, if any.
    pub open spec fn derived_data(self) -> Option<Seq<char>> {
        match self {
            NodeType::Root => None,
            NodeType::Bookmark => None,
            NodeType::Changeset => None,
            NodeType::BonsaiHgMapping => Some("filenodes"@),
            NodeType::PhaseMapping => None,
            NodeType::PublishedBookmarks => None,
            NodeType::HgBonsaiMapping => Some("hgchangesets"@),
            NodeType::HgChangeset => Some("hgchangesets"@),
            NodeType::HgChangesetViaBonsai => Some("hgchangesets"@),
            NodeType::HgManifest => Some("hgchangesets"@),
            NodeType::HgFileEnvelope => Some("hgchangesets"@),
            NodeType::HgFileNode => Some("filenodes"@),
            NodeType::HgManifestFileNode => Some("filenodes"@),
            NodeType::FileContent => None,
            NodeType::FileContentMetadata => None,
            NodeType::AliasContentMapping => None,
            NodeType::Blame => Some("blame"@),
            NodeType::ChangesetInfo => Some("changeset_info"@),
            NodeType::ChangesetInfoMapping => Some("changeset_info"@),
            NodeType::DeletedManifest => Some("deleted_manifest"@),
            NodeType::DeletedManifestMapping => Some("deleted_manifest"@),
            NodeType::Fsnode => Some("fsnodes"@),
            NodeType::FastlogBatch => Some("fastlog"@),
            NodeType::FastlogDir => Some("fastlog"@),
            NodeType::FastlogFile => Some("fastlog"@),
            NodeType::FsnodeMapping => Some("fsnodes"@),
            NodeType::SkeletonManifest => Some("skeleton_manifests"@),
            NodeType::SkeletonManifestMapping => Some("skeleton_manifests"@),
            NodeType::UnodeFile => Some("unodes"@),
            NodeType::UnodeManifest => Some("unodes"@),
            NodeType::UnodeMapping => Some("unodes"@),
        }
    }

    /// Derived data types are keyed by their statically defined name.
    pub fn derived_data_name(&self) -> (r: Option<&'static str>)
        ensures
            r is Some == self.derived_data() is Some,
            r is Some ==> r.unwrap()@ == self.derived_data().unwrap(),
    {
        proof {
            reveal_strlit("blame");
            reveal_strlit("changeset_info");
            reveal_strlit("deleted_manifest");
            reveal_strlit("fastlog");
            reveal_strlit("filenodes");
            reveal_strlit("fsnodes");
            reveal_strlit("hgchangesets");
            reveal_strlit("skeleton_manifests");
            reveal_strlit("unodes");
        }
        match self {
            NodeType::Root => None,
            NodeType::Bookmark => None,
            NodeType::Changeset => None,
            NodeType::BonsaiHgMapping => Some("filenodes"),
            NodeType::PhaseMapping => None,
            NodeType::PublishedBookmarks => None,
            NodeType::HgBonsaiMapping => Some("hgchangesets"),
            NodeType::HgChangeset => Some("hgchangesets"),
            NodeType::HgChangesetViaBonsai => Some("hgchangesets"),
            NodeType::HgManifest => Some("hgchangesets"),
            NodeType::HgFileEnvelope => Some("hgchangesets"),
            NodeType::HgFileNode => Some("filenodes"),
            NodeType::HgManifestFileNode => Some("filenodes"),
            NodeType::FileContent => None,
            NodeType::FileContentMetadata => None,
            NodeType::AliasContentMapping => None,
            NodeType::Blame => Some("blame"),
            NodeType::ChangesetInfo => Some("changeset_info"),
            NodeType::ChangesetInfoMapping => Some("changeset_info"),
            NodeType::DeletedManifest => Some("deleted_manifest"),
            NodeType::DeletedManifestMapping => Some("deleted_manifest"),
            NodeType::Fsnode => Some("fsnodes"),
            NodeType::FastlogBatch => Some("fastlog"),
            NodeType::FastlogDir => Some("fastlog"),
            NodeType::FastlogFile => Some("fastlog"),
            NodeType::FsnodeMapping => Some("fsnodes"),
            NodeType::SkeletonManifest => Some("skeleton_manifests"),
            NodeType::SkeletonManifestMapping => Some("skeleton_manifests"),
            NodeType::UnodeFile => Some("unodes"),
            NodeType::UnodeManifest => Some("unodes"),
            NodeType::UnodeMapping => Some("unodes"),
        }
    }

    pub open spec fn name(self) -> Seq<char> {
        match self {
            NodeType::Root => "Root"@,
            NodeType::Bookmark => "Bookmark"@,
            NodeType::Changeset => "Changeset"@,
            NodeType::BonsaiHgMapping => "BonsaiHgMapping"@,
            NodeType::PhaseMapping => "PhaseMapping"@,
            NodeType::PublishedBookmarks => "PublishedBookmarks"@,
            NodeType::HgBonsaiMapping => "HgBonsaiMapping"@,
            NodeType::HgChangeset => "HgChangeset"@,
            NodeType::HgChangesetViaBonsai => "HgChangesetViaBonsai"@,
            NodeType::HgManifest => "HgManifest"@,
            NodeType::HgFileEnvelope => "HgFileEnvelope"@,
            NodeType::HgFileNode => "HgFileNode"@,
            NodeType::HgManifestFileNode => "HgManifestFileNode"@,
            NodeType::FileContent => "FileContent"@,
            NodeType::FileContentMetadata => "FileContentMetadata"@,
            NodeType::AliasContentMapping => "AliasContentMapping"@,
            NodeType::Blame => "Blame"@,
            NodeType::ChangesetInfo => "ChangesetInfo"@,
            NodeType::ChangesetInfoMapping => "ChangesetInfoMapping"@,
            NodeType::DeletedManifest => "DeletedManifest"@,
            NodeType::DeletedManifestMapping => "DeletedManifestMapping"@,
            NodeType::Fsnode => "Fsnode"@,
            NodeType::FastlogBatch => "FastlogBatch"@,
            NodeType::FastlogDir => "FastlogDir"@,
            NodeType::FastlogFile => "FastlogFile"@,
            NodeType::FsnodeMapping => "FsnodeMapping"@,
            NodeType::SkeletonManifest => "SkeletonManifest"@,
            NodeType::SkeletonManifestMapping => "SkeletonManifestMapping"@,
            NodeType::UnodeFile => "UnodeFile"@,
            NodeType::UnodeManifest => "UnodeManifest"@,
            NodeType::UnodeMapping => "UnodeMapping"@,
        }
    }

    /// The kind's name.
    pub fn as_str(&self) -> (r: &'static str)
        ensures
            r@ == self.name(),
    {
        proof {
            reveal_strlit("Root");
            reveal_strlit("Bookmark");
            reveal_strlit("Changeset");
            reveal_strlit("BonsaiHgMapping");
            reveal_strlit("PhaseMapping");
            reveal_strlit("PublishedBookmarks");
            reveal_strlit("HgBonsaiMapping");
            reveal_strlit("HgChangeset");
            reveal_strlit("HgChangesetViaBonsai");
            reveal_strlit("HgManifest");
            reveal_strlit("HgFileEnvelope");
            reveal_strlit("HgFileNode");
            reveal_strlit("HgManifestFileNode");
            reveal_strlit("FileContent");
            reveal_strlit("FileContentMetadata");
            reveal_strlit("AliasContentMapping");
            reveal_strlit("Blame");
            reveal_strlit("ChangesetInfo");
            reveal_strlit("ChangesetInfoMapping");
            reveal_strlit("DeletedManifest");
            reveal_strlit("DeletedManifestMapping");
            reveal_strlit("Fsnode");
            reveal_strlit("FastlogBatch");
            reveal_strlit("FastlogDir");
            reveal_strlit("FastlogFile");
            reveal_strlit("FsnodeMapping");
            reveal_strlit("SkeletonManifest");
            reveal_strlit("SkeletonManifestMapping");
            reveal_strlit("UnodeFile");
            reveal_strlit("UnodeManifest");
            reveal_strlit("UnodeMapping");
        }
        match self {
            NodeType::Root => "Root",
            NodeType::Bookmark => "Bookmark",
            NodeType::Changeset => "Changeset",
            NodeType::BonsaiHgMapping => "BonsaiHgMapping",
            NodeType::PhaseMapping => "PhaseMapping",
            NodeType::PublishedBookmarks => "PublishedBookmarks",
            NodeType::HgBonsaiMapping => "HgBonsaiMapping",
            NodeType::HgChangeset => "HgChangeset",
            NodeType::HgChangesetViaBonsai => "HgChangesetViaBonsai",
            NodeType::HgManifest => "HgManifest",
            NodeType::HgFileEnvelope => "HgFileEnvelope",
            NodeType::HgFileNode => "HgFileNode",
            NodeType::HgManifestFileNode => "HgManifestFileNode",
            NodeType::FileContent => "FileContent",
            NodeType::FileContentMetadata => "FileContentMetadata",
            NodeType::AliasContentMapping => "AliasContentMapping",
            NodeType::Blame => "Blame",
            NodeType::ChangesetInfo => "ChangesetInfo",
            NodeType::ChangesetInfoMapping => "ChangesetInfoMapping",
            NodeType::DeletedManifest => "DeletedManifest",
            NodeType::DeletedManifestMapping => "DeletedManifestMapping",
            NodeType::Fsnode => "Fsnode",
            NodeType::FastlogBatch => "FastlogBatch",
            NodeType::FastlogDir => "FastlogDir",
            NodeType::FastlogFile => "FastlogFile",
            NodeType::FsnodeMapping => "FsnodeMapping",
            NodeType::SkeletonManifest => "SkeletonManifest",
            NodeType::SkeletonManifestMapping => "SkeletonManifestMapping",
            NodeType::UnodeFile => "UnodeFile",
            NodeType::UnodeManifest => "UnodeManifest",
            NodeType::UnodeMapping => "UnodeMapping",
        }
    }
}

impl EdgeType {
    pub const COUNT: usize = 97;

    /// All edge kinds, in declaration order.
    pub open spec fn all_spec() -> Seq<EdgeType> {
        seq![EdgeType::RootToBookmark, EdgeType::RootToChangeset, EdgeType::RootToBonsaiHgMapping, EdgeType::RootToPhaseMapping, EdgeType::RootToPublishedBookmarks, EdgeType::RootToHgBonsaiMapping, EdgeType::RootToHgChangeset, EdgeType::RootToHgChangesetViaBonsai, EdgeType::RootToHgManifest, EdgeType::RootToHgFileEnvelope, EdgeType::RootToHgFileNode, EdgeType::RootToHgManifestFileNode, EdgeType::RootToFileContent, EdgeType::RootToFileContentMetadata, EdgeType::RootToAliasContentMapping, EdgeType::RootToBlame, EdgeType::RootToChangesetInfo, EdgeType::RootToChangesetInfoMapping, EdgeType::RootToDeletedManifest, EdgeType::RootToDeletedManifestMapping, EdgeType::RootToFastlogBatch, EdgeType::RootToFastlogDir, EdgeType::RootToFastlogFile, EdgeType::RootToFsnode, EdgeType::RootToFsnodeMapping, EdgeType::RootToSkeletonManifest, EdgeType::RootToSkeletonManifestMapping, EdgeType::RootToUnodeFile, EdgeType::RootToUnodeManifest, EdgeType::RootToUnodeMapping, EdgeType::BookmarkToChangeset, EdgeType::BookmarkToBonsaiHgMapping, EdgeType::ChangesetToFileContent, EdgeType::ChangesetToBonsaiParent, EdgeType::ChangesetToBonsaiHgMapping, EdgeType::ChangesetToPhaseMapping, EdgeType::ChangesetToChangesetInfo, EdgeType::ChangesetToChangesetInfoMapping, EdgeType::ChangesetToDeletedManifestMapping, EdgeType::ChangesetToFsnodeMapping, EdgeType::ChangesetToSkeletonManifestMapping, EdgeType::ChangesetToUnodeMapping, EdgeType::BonsaiHgMappingToHgBonsaiMapping, EdgeType::BonsaiHgMappingToHgChangesetViaBonsai, EdgeType::PublishedBookmarksToChangeset, EdgeType::PublishedBookmarksToBonsaiHgMapping, EdgeType::HgBonsaiMappingToChangeset, EdgeType::HgChangesetToHgParent, EdgeType::HgChangesetToHgManifest, EdgeType::HgChangesetToHgManifestFileNode, EdgeType::HgChangesetViaBonsaiToHgChangeset, EdgeType::HgManifestToHgFileEnvelope, EdgeType::HgManifestToHgFileNode, EdgeType::HgManifestToHgManifestFileNode, EdgeType::HgManifestToChildHgManifest, EdgeType::HgFileEnvelopeToFileContent, EdgeType::HgFileNodeToLinkedHgBonsaiMapping, EdgeType::HgFileNodeToLinkedHgChangeset, EdgeType::HgFileNodeToHgParentFileNode, EdgeType::HgFileNodeToHgCopyfromFileNode, EdgeType::HgManifestFileNodeToLinkedHgBonsaiMapping, EdgeType::HgManifestFileNodeToLinkedHgChangeset, EdgeType::HgManifestFileNodeToHgParentFileNode, EdgeType::HgManifestFileNodeToHgCopyfromFileNode, EdgeType::FileContentToFileContentMetadata, EdgeType::FileContentMetadataToSha1Alias, EdgeType::FileContentMetadataToSha256Alias, EdgeType::FileContentMetadataToGitSha1Alias, EdgeType::AliasContentMappingToFileContent, EdgeType::BlameToChangeset, EdgeType::ChangesetInfoToChangesetInfoParent, EdgeType::ChangesetInfoMappingToChangesetInfo, EdgeType::DeletedManifestToDeletedManifestChild, EdgeType::DeletedManifestToLinkedChangeset, EdgeType::DeletedManifestMappingToRootDeletedManifest, EdgeType::FsnodeToChildFsnode, EdgeType::FsnodeToFileContent, EdgeType::FastlogBatchToChangeset, EdgeType::FastlogBatchToPreviousBatch, EdgeType::FastlogDirToChangeset, EdgeType::FastlogDirToPreviousBatch, EdgeType::FastlogFileToChangeset, EdgeType::FastlogFileToPreviousBatch, EdgeType::FsnodeMappingToRootFsnode, EdgeType::SkeletonManifestToSkeletonManifestChild, EdgeType::SkeletonManifestMappingToRootSkeletonManifest, EdgeType::UnodeFileToBlame, EdgeType::UnodeFileToFastlogFile, EdgeType::UnodeFileToFileContent, EdgeType::UnodeFileToLinkedChangeset, EdgeType::UnodeFileToUnodeFileParent, EdgeType::UnodeManifestToFastlogDir, EdgeType::UnodeManifestToUnodeFileChild, EdgeType::UnodeManifestToUnodeManifestChild, EdgeType::UnodeManifestToUnodeManifestParent, EdgeType::UnodeManifestToLinkedChangeset, EdgeType::UnodeMappingToRootUnodeManifest]
    }

    /// All edge kinds, in declaration order.
    pub fn all() -> (r: Vec<EdgeType>)
        ensures
            r@ == Self::all_spec(),
    {
        vec![EdgeType::RootToBookmark, EdgeType::RootToChangeset, EdgeType::RootToBonsaiHgMapping, EdgeType::RootToPhaseMapping, EdgeType::RootToPublishedBookmarks, EdgeType::RootToHgBonsaiMapping, EdgeType::RootToHgChangeset, EdgeType::RootToHgChangesetViaBonsai, EdgeType::RootToHgManifest, EdgeType::RootToHgFileEnvelope, EdgeType::RootToHgFileNode, EdgeType::RootToHgManifestFileNode, EdgeType::RootToFileContent, EdgeType::RootToFileContentMetadata, EdgeType::RootToAliasContentMapping, EdgeType::RootToBlame, EdgeType::RootToChangesetInfo, EdgeType::RootToChangesetInfoMapping, EdgeType::RootToDeletedManifest, EdgeType::RootToDeletedManifestMapping, EdgeType::RootToFastlogBatch, EdgeType::RootToFastlogDir, EdgeType::RootToFastlogFile, EdgeType::RootToFsnode, EdgeType::RootToFsnodeMapping, EdgeType::RootToSkeletonManifest, EdgeType::RootToSkeletonManifestMapping, EdgeType::RootToUnodeFile, EdgeType::RootToUnodeManifest, EdgeType::RootToUnodeMapping, EdgeType::BookmarkToChangeset, EdgeType::BookmarkToBonsaiHgMapping, EdgeType::ChangesetToFileContent, EdgeType::ChangesetToBonsaiParent, EdgeType::ChangesetToBonsaiHgMapping, EdgeType::ChangesetToPhaseMapping, EdgeType::ChangesetToChangesetInfo, EdgeType::ChangesetToChangesetInfoMapping, EdgeType::ChangesetToDeletedManifestMapping, EdgeType::ChangesetToFsnodeMapping, EdgeType::ChangesetToSkeletonManifestMapping, EdgeType::ChangesetToUnodeMapping, EdgeType::BonsaiHgMappingToHgBonsaiMapping, EdgeType::BonsaiHgMappingToHgChangesetViaBonsai, EdgeType::PublishedBookmarksToChangeset, EdgeType::PublishedBookmarksToBonsaiHgMapping, EdgeType::HgBonsaiMappingToChangeset, EdgeType::HgChangesetToHgParent, EdgeType::HgChangesetToHgManifest, EdgeType::HgChangesetToHgManifestFileNode, EdgeType::HgChangesetViaBonsaiToHgChangeset, EdgeType::HgManifestToHgFileEnvelope, EdgeType::HgManifestToHgFileNode, EdgeType::HgManifestToHgManifestFileNode, EdgeType::HgManifestToChildHgManifest, EdgeType::HgFileEnvelopeToFileContent, EdgeType::HgFileNodeToLinkedHgBonsaiMapping, EdgeType::HgFileNodeToLinkedHgChangeset, EdgeType::HgFileNodeToHgParentFileNode, EdgeType::HgFileNodeToHgCopyfromFileNode, EdgeType::HgManifestFileNodeToLinkedHgBonsaiMapping, EdgeType::HgManifestFileNodeToLinkedHgChangeset, EdgeType::HgManifestFileNodeToHgParentFileNode, EdgeType::HgManifestFileNodeToHgCopyfromFileNode, EdgeType::FileContentToFileContentMetadata, EdgeType::FileContentMetadataToSha1Alias, EdgeType::FileContentMetadataToSha256Alias, EdgeType::FileContentMetadataToGitSha1Alias, EdgeType::AliasContentMappingToFileContent, EdgeType::BlameToChangeset, EdgeType::ChangesetInfoToChangesetInfoParent, EdgeType::ChangesetInfoMappingToChangesetInfo, EdgeType::DeletedManifestToDeletedManifestChild, EdgeType::DeletedManifestToLinkedChangeset, EdgeType::DeletedManifestMappingToRootDeletedManifest, EdgeType::FsnodeToChildFsnode, EdgeType::FsnodeToFileContent, EdgeType::FastlogBatchToChangeset, EdgeType::FastlogBatchToPreviousBatch, EdgeType::FastlogDirToChangeset, EdgeType::FastlogDirToPreviousBatch, EdgeType::FastlogFileToChangeset, EdgeType::FastlogFileToPreviousBatch, EdgeType::FsnodeMappingToRootFsnode, EdgeType::SkeletonManifestToSkeletonManifestChild, EdgeType::SkeletonManifestMappingToRootSkeletonManifest, EdgeType::UnodeFileToBlame, EdgeType::UnodeFileToFastlogFile, EdgeType::UnodeFileToFileContent, EdgeType::UnodeFileToLinkedChangeset, EdgeType::UnodeFileToUnodeFileParent, EdgeType::UnodeManifestToFastlogDir, EdgeType::UnodeManifestToUnodeFileChild, EdgeType::UnodeManifestToUnodeManifestChild, EdgeType::UnodeManifestToUnodeManifestParent, EdgeType::UnodeManifestToLinkedChangeset, EdgeType::UnodeMappingToRootUnodeManifest]
    }

    /// The kind an edge leaves from; `None` for edges from `Root`.
    pub open spec fn source(self) -> Option<NodeType> {
        match self {
            EdgeType::RootToBookmark => None,
            EdgeType::RootToChangeset => None,
            EdgeType::RootToBonsaiHgMapping => None,
            EdgeType::RootToPhaseMapping => None,
            EdgeType::RootToPublishedBookmarks => None,
            EdgeType::RootToHgBonsaiMapping => None,
            EdgeType::RootToHgChangeset => None,
            EdgeType::RootToHgChangesetViaBonsai => None,
            EdgeType::RootToHgManifest => None,
            EdgeType::RootToHgFileEnvelope => None,
            EdgeType::RootToHgFileNode => None,
            EdgeType::RootToHgManifestFileNode => None,
            EdgeType::RootToFileContent => None,
            EdgeType::RootToFileContentMetadata => None,
            EdgeType::RootToAliasContentMapping => None,
            EdgeType::RootToBlame => None,
            EdgeType::RootToChangesetInfo => None,
            EdgeType::RootToChangesetInfoMapping => None,
            EdgeType::RootToDeletedManifest => None,
            EdgeType::RootToDeletedManifestMapping => None,
            EdgeType::RootToFastlogBatch => None,
            EdgeType::RootToFastlogDir => None,
            EdgeType::RootToFastlogFile => None,
            EdgeType::RootToFsnode => None,
            EdgeType::RootToFsnodeMapping => None,
            EdgeType::RootToSkeletonManifest => None,
            EdgeType::RootToSkeletonManifestMapping => None,
            EdgeType::RootToUnodeFile => None,
            EdgeType::RootToUnodeManifest => None,
            EdgeType::RootToUnodeMapping => None,
            EdgeType::BookmarkToChangeset => Some(NodeType::Bookmark),
            EdgeType::BookmarkToBonsaiHgMapping => Some(NodeType::Bookmark),
            EdgeType::ChangesetToFileContent => Some(NodeType::Changeset),
            EdgeType::ChangesetToBonsaiParent => Some(NodeType::Changeset),
            EdgeType::ChangesetToBonsaiHgMapping => Some(NodeType::Changeset),
            EdgeType::ChangesetToPhaseMapping => Some(NodeType::Changeset),
            EdgeType::ChangesetToChangesetInfo => Some(NodeType::Changeset),
            EdgeType::ChangesetToChangesetInfoMapping => Some(NodeType::Changeset),
            EdgeType::ChangesetToDeletedManifestMapping => Some(NodeType::Changeset),
            EdgeType::ChangesetToFsnodeMapping => Some(NodeType::Changeset),
            EdgeType::ChangesetToSkeletonManifestMapping => Some(NodeType::Changeset),
            EdgeType::ChangesetToUnodeMapping => Some(NodeType::Changeset),
            EdgeType::BonsaiHgMappingToHgBonsaiMapping => Some(NodeType::BonsaiHgMapping),
            EdgeType::BonsaiHgMappingToHgChangesetViaBonsai => Some(NodeType::BonsaiHgMapping),
            EdgeType::PublishedBookmarksToChangeset => Some(NodeType::PublishedBookmarks),
            EdgeType::PublishedBookmarksToBonsaiHgMapping => Some(NodeType::PublishedBookmarks),
            EdgeType::HgBonsaiMappingToChangeset => Some(NodeType::HgBonsaiMapping),
            EdgeType::HgChangesetToHgParent => Some(NodeType::HgChangeset),
            EdgeType::HgChangesetToHgManifest => Some(NodeType::HgChangeset),
            EdgeType::HgChangesetToHgManifestFileNode => Some(NodeType::HgChangeset),
            EdgeType::HgChangesetViaBonsaiToHgChangeset => Some(NodeType::HgChangesetViaBonsai),
            EdgeType::HgManifestToHgFileEnvelope => Some(NodeType::HgManifest),
            EdgeType::HgManifestToHgFileNode => Some(NodeType::HgManifest),
            EdgeType::HgManifestToHgManifestFileNode => Some(NodeType::HgManifest),
            EdgeType::HgManifestToChildHgManifest => Some(NodeType::HgManifest),
            EdgeType::HgFileEnvelopeToFileContent => Some(NodeType::HgFileEnvelope),
            EdgeType::HgFileNodeToLinkedHgBonsaiMapping => Some(NodeType::HgFileNode),
            EdgeType::HgFileNodeToLinkedHgChangeset => Some(NodeType::HgFileNode),
            EdgeType::HgFileNodeToHgParentFileNode => Some(NodeType::HgFileNode),
            EdgeType::HgFileNodeToHgCopyfromFileNode => Some(NodeType::HgFileNode),
            EdgeType::HgManifestFileNodeToLinkedHgBonsaiMapping => Some(NodeType::HgManifestFileNode),
            EdgeType::HgManifestFileNodeToLinkedHgChangeset => Some(NodeType::HgManifestFileNode),
            EdgeType::HgManifestFileNodeToHgParentFileNode => Some(NodeType::HgManifestFileNode),
            EdgeType::HgManifestFileNodeToHgCopyfromFileNode => Some(NodeType::HgManifestFileNode),
            EdgeType::FileContentToFileContentMetadata => Some(NodeType::FileContent),
            EdgeType::FileContentMetadataToSha1Alias => Some(NodeType::FileContentMetadata),
            EdgeType::FileContentMetadataToSha256Alias => Some(NodeType::FileContentMetadata),
            EdgeType::FileContentMetadataToGitSha1Alias => Some(NodeType::FileContentMetadata),
            EdgeType::AliasContentMappingToFileContent => Some(NodeType::AliasContentMapping),
            EdgeType::BlameToChangeset => Some(NodeType::Blame),
            EdgeType::ChangesetInfoToChangesetInfoParent => Some(NodeType::ChangesetInfo),
            EdgeType::ChangesetInfoMappingToChangesetInfo => Some(NodeType::ChangesetInfoMapping),
            EdgeType::DeletedManifestToDeletedManifestChild => Some(NodeType::DeletedManifest),
            EdgeType::DeletedManifestToLinkedChangeset => Some(NodeType::DeletedManifest),
            EdgeType::DeletedManifestMappingToRootDeletedManifest => Some(NodeType::DeletedManifestMapping),
            EdgeType::FsnodeToChildFsnode => Some(NodeType::Fsnode),
            EdgeType::FsnodeToFileContent => Some(NodeType::Fsnode),
            EdgeType::FastlogBatchToChangeset => Some(NodeType::FastlogBatch),
            EdgeType::FastlogBatchToPreviousBatch => Some(NodeType::FastlogBatch),
            EdgeType::FastlogDirToChangeset => Some(NodeType::FastlogDir),
            EdgeType::FastlogDirToPreviousBatch => Some(NodeType::FastlogDir),
            EdgeType::FastlogFileToChangeset => Some(NodeType::FastlogFile),
            EdgeType::FastlogFileToPreviousBatch => Some(NodeType::FastlogFile),
            EdgeType::FsnodeMappingToRootFsnode => Some(NodeType::FsnodeMapping),
            EdgeType::SkeletonManifestToSkeletonManifestChild => Some(NodeType::SkeletonManifest),
            EdgeType::SkeletonManifestMappingToRootSkeletonManifest => Some(NodeType::SkeletonManifestMapping),
            EdgeType::UnodeFileToBlame => Some(NodeType::UnodeFile),
            EdgeType::UnodeFileToFastlogFile => Some(NodeType::UnodeFile),
            EdgeType::UnodeFileToFileContent => Some(NodeType::UnodeFile),
            EdgeType::UnodeFileToLinkedChangeset => Some(NodeType::UnodeFile),
            EdgeType::UnodeFileToUnodeFileParent => Some(NodeType::UnodeFile),
            EdgeType::UnodeManifestToFastlogDir => Some(NodeType::UnodeManifest),
            EdgeType::UnodeManifestToUnodeFileChild => Some(NodeType::UnodeManifest),
            EdgeType::UnodeManifestToUnodeManifestChild => Some(NodeType::UnodeManifest),
            EdgeType::UnodeManifestToUnodeManifestParent => Some(NodeType::UnodeManifest),
            EdgeType::UnodeManifestToLinkedChangeset => Some(NodeType::UnodeManifest),
            EdgeType::UnodeMappingToRootUnodeManifest => Some(NodeType::UnodeMapping),
        }
    }

    /// The kind an edge leads to.
    pub open spec fn target(self) -> NodeType {
        match self {
            EdgeType::RootToBookmark => NodeType::Bookmark,
            EdgeType::RootToChangeset => NodeType::Changeset,
            EdgeType::RootToBonsaiHgMapping => NodeType::BonsaiHgMapping,
            EdgeType::RootToPhaseMapping => NodeType::PhaseMapping,
            EdgeType::RootToPublishedBookmarks => NodeType::PublishedBookmarks,
            EdgeType::RootToHgBonsaiMapping => NodeType::HgBonsaiMapping,
            EdgeType::RootToHgChangeset => NodeType::HgChangeset,
            EdgeType::RootToHgChangesetViaBonsai => NodeType::HgChangesetViaBonsai,
            EdgeType::RootToHgManifest => NodeType::HgManifest,
            EdgeType::RootToHgFileEnvelope => NodeType::HgFileEnvelope,
            EdgeType::RootToHgFileNode => NodeType::HgFileNode,
            EdgeType::RootToHgManifestFileNode => NodeType::HgManifestFileNode,
            EdgeType::RootToFileContent => NodeType::FileContent,
            EdgeType::RootToFileContentMetadata => NodeType::FileContentMetadata,
            EdgeType::RootToAliasContentMapping => NodeType::AliasContentMapping,
            EdgeType::RootToBlame => NodeType::Blame,
            EdgeType::RootToChangesetInfo => NodeType::ChangesetInfo,
            EdgeType::RootToChangesetInfoMapping => NodeType::ChangesetInfoMapping,
            EdgeType::RootToDeletedManifest => NodeType::DeletedManifest,
            EdgeType::RootToDeletedManifestMapping => NodeType::DeletedManifestMapping,
            EdgeType::RootToFastlogBatch => NodeType::FastlogBatch,
            EdgeType::RootToFastlogDir => NodeType::FastlogDir,
            EdgeType::RootToFastlogFile => NodeType::FastlogFile,
            EdgeType::RootToFsnode => NodeType::Fsnode,
            EdgeType::RootToFsnodeMapping => NodeType::FsnodeMapping,
            EdgeType::RootToSkeletonManifest => NodeType::SkeletonManifest,
            EdgeType::RootToSkeletonManifestMapping => NodeType::SkeletonManifestMapping,
            EdgeType::RootToUnodeFile => NodeType::UnodeFile,
            EdgeType::RootToUnodeManifest => NodeType::UnodeManifest,
            EdgeType::RootToUnodeMapping => NodeType::UnodeMapping,
            EdgeType::BookmarkToChangeset => NodeType::Changeset,
            EdgeType::BookmarkToBonsaiHgMapping => NodeType::BonsaiHgMapping,
            EdgeType::ChangesetToFileContent => NodeType::FileContent,
            EdgeType::ChangesetToBonsaiParent => NodeType::Changeset,
            EdgeType::ChangesetToBonsaiHgMapping => NodeType::BonsaiHgMapping,
            EdgeType::ChangesetToPhaseMapping => NodeType::PhaseMapping,
            EdgeType::ChangesetToChangesetInfo => NodeType::ChangesetInfo,
            EdgeType::ChangesetToChangesetInfoMapping => NodeType::ChangesetInfoMapping,
            EdgeType::ChangesetToDeletedManifestMapping => NodeType::DeletedManifestMapping,
            EdgeType::ChangesetToFsnodeMapping => NodeType::FsnodeMapping,
            EdgeType::ChangesetToSkeletonManifestMapping => NodeType::SkeletonManifestMapping,
            EdgeType::ChangesetToUnodeMapping => NodeType::UnodeMapping,
            EdgeType::BonsaiHgMappingToHgBonsaiMapping => NodeType::HgBonsaiMapping,
            EdgeType::BonsaiHgMappingToHgChangesetViaBonsai => NodeType::HgChangesetViaBonsai,
            EdgeType::PublishedBookmarksToChangeset => NodeType::Changeset,
            EdgeType::PublishedBookmarksToBonsaiHgMapping => NodeType::BonsaiHgMapping,
            EdgeType::HgBonsaiMappingToChangeset => NodeType::Changeset,
            EdgeType::HgChangesetToHgParent => NodeType::HgChangesetViaBonsai,
            EdgeType::HgChangesetToHgManifest => NodeType::HgManifest,
            EdgeType::HgChangesetToHgManifestFileNode => NodeType::HgManifestFileNode,
            EdgeType::HgChangesetViaBonsaiToHgChangeset => NodeType::HgChangeset,
            EdgeType::HgManifestToHgFileEnvelope => NodeType::HgFileEnvelope,
            EdgeType::HgManifestToHgFileNode => NodeType::HgFileNode,
            EdgeType::HgManifestToHgManifestFileNode => NodeType::HgManifestFileNode,
            EdgeType::HgManifestToChildHgManifest => NodeType::HgManifest,
            EdgeType::HgFileEnvelopeToFileContent => NodeType::FileContent,
            EdgeType::HgFileNodeToLinkedHgBonsaiMapping => NodeType::HgBonsaiMapping,
            EdgeType::HgFileNodeToLinkedHgChangeset => NodeType::HgChangesetViaBonsai,
            EdgeType::HgFileNodeToHgParentFileNode => NodeType::HgFileNode,
            EdgeType::HgFileNodeToHgCopyfromFileNode => NodeType::HgFileNode,
            EdgeType::HgManifestFileNodeToLinkedHgBonsaiMapping => NodeType::HgBonsaiMapping,
            EdgeType::HgManifestFileNodeToLinkedHgChangeset => NodeType::HgChangesetViaBonsai,
            EdgeType::HgManifestFileNodeToHgParentFileNode => NodeType::HgManifestFileNode,
            EdgeType::HgManifestFileNodeToHgCopyfromFileNode => NodeType::HgManifestFileNode,
            EdgeType::FileContentToFileContentMetadata => NodeType::FileContentMetadata,
            EdgeType::FileContentMetadataToSha1Alias => NodeType::AliasContentMapping,
            EdgeType::FileContentMetadataToSha256Alias => NodeType::AliasContentMapping,
            EdgeType::FileContentMetadataToGitSha1Alias => NodeType::AliasContentMapping,
            EdgeType::AliasContentMappingToFileContent => NodeType::FileContent,
            EdgeType::BlameToChangeset => NodeType::Changeset,
            EdgeType::ChangesetInfoToChangesetInfoParent => NodeType::ChangesetInfo,
            EdgeType::ChangesetInfoMappingToChangesetInfo => NodeType::ChangesetInfo,
            EdgeType::DeletedManifestToDeletedManifestChild => NodeType::DeletedManifest,
            EdgeType::DeletedManifestToLinkedChangeset => NodeType::Changeset,
            EdgeType::DeletedManifestMappingToRootDeletedManifest => NodeType::DeletedManifest,
            EdgeType::FsnodeToChildFsnode => NodeType::Fsnode,
            EdgeType::FsnodeToFileContent => NodeType::FileContent,
            EdgeType::FastlogBatchToChangeset => NodeType::Changeset,
            EdgeType::FastlogBatchToPreviousBatch => NodeType::FastlogBatch,
            EdgeType::FastlogDirToChangeset => NodeType::Changeset,
            EdgeType::FastlogDirToPreviousBatch => NodeType::FastlogBatch,
            EdgeType::FastlogFileToChangeset => NodeType::Changeset,
            EdgeType::FastlogFileToPreviousBatch => NodeType::FastlogBatch,
            EdgeType::FsnodeMappingToRootFsnode => NodeType::Fsnode,
            EdgeType::SkeletonManifestToSkeletonManifestChild => NodeType::SkeletonManifest,
            EdgeType::SkeletonManifestMappingToRootSkeletonManifest => NodeType::SkeletonManifest,
            EdgeType::UnodeFileToBlame => NodeType::Blame,
            EdgeType::UnodeFileToFastlogFile => NodeType::FastlogFile,
            EdgeType::UnodeFileToFileContent => NodeType::FileContent,
            EdgeType::UnodeFileToLinkedChangeset => NodeType::Changeset,
            EdgeType::UnodeFileToUnodeFileParent => NodeType::UnodeFile,
            EdgeType::UnodeManifestToFastlogDir => NodeType::FastlogDir,
            EdgeType::UnodeManifestToUnodeFileChild => NodeType::UnodeFile,
            EdgeType::UnodeManifestToUnodeManifestChild => NodeType::UnodeManifest,
            EdgeType::UnodeManifestToUnodeManifestParent => NodeType::UnodeManifest,
            EdgeType::UnodeManifestToLinkedChangeset => NodeType::Changeset,
            EdgeType::UnodeMappingToRootUnodeManifest => NodeType::UnodeManifest,
        }
    }

    pub fn incoming_type(&self) -> (r: Option<NodeType>)
        ensures
            r == self.source(),
    {
        match self {
            EdgeType::RootToBookmark => None,
            EdgeType::RootToChangeset => None,
            EdgeType::RootToBonsaiHgMapping => None,
            EdgeType::RootToPhaseMapping => None,
            EdgeType::RootToPublishedBookmarks => None,
            EdgeType::RootToHgBonsaiMapping => None,
            EdgeType::RootToHgChangeset => None,
            EdgeType::RootToHgChangesetViaBonsai => None,
            EdgeType::RootToHgManifest => None,
            EdgeType::RootToHgFileEnvelope => None,
            EdgeType::RootToHgFileNode => None,
            EdgeType::RootToHgManifestFileNode => None,
            EdgeType::RootToFileContent => None,
            EdgeType::RootToFileContentMetadata => None,
            EdgeType::RootToAliasContentMapping => None,
            EdgeType::RootToBlame => None,
            EdgeType::RootToChangesetInfo => None,
            EdgeType::RootToChangesetInfoMapping => None,
            EdgeType::RootToDeletedManifest => None,
            EdgeType::RootToDeletedManifestMapping => None,
            EdgeType::RootToFastlogBatch => None,
            EdgeType::RootToFastlogDir => None,
            EdgeType::RootToFastlogFile => None,
            EdgeType::RootToFsnode => None,
            EdgeType::RootToFsnodeMapping => None,
            EdgeType::RootToSkeletonManifest => None,
            EdgeType::RootToSkeletonManifestMapping => None,
            EdgeType::RootToUnodeFile => None,
            EdgeType::RootToUnodeManifest => None,
            EdgeType::RootToUnodeMapping => None,
            EdgeType::BookmarkToChangeset => Some(NodeType::Bookmark),
            EdgeType::BookmarkToBonsaiHgMapping => Some(NodeType::Bookmark),
            EdgeType::ChangesetToFileContent => Some(NodeType::Changeset),
            EdgeType::ChangesetToBonsaiParent => Some(NodeType::Changeset),
            EdgeType::ChangesetToBonsaiHgMapping => Some(NodeType::Changeset),
            EdgeType::ChangesetToPhaseMapping => Some(NodeType::Changeset),
            EdgeType::ChangesetToChangesetInfo => Some(NodeType::Changeset),
            EdgeType::ChangesetToChangesetInfoMapping => Some(NodeType::Changeset),
            EdgeType::ChangesetToDeletedManifestMapping => Some(NodeType::Changeset),
            EdgeType::ChangesetToFsnodeMapping => Some(NodeType::Changeset),
            EdgeType::ChangesetToSkeletonManifestMapping => Some(NodeType::Changeset),
            EdgeType::ChangesetToUnodeMapping => Some(NodeType::Changeset),
            EdgeType::BonsaiHgMappingToHgBonsaiMapping => Some(NodeType::BonsaiHgMapping),
            EdgeType::BonsaiHgMappingToHgChangesetViaBonsai => Some(NodeType::BonsaiHgMapping),
            EdgeType::PublishedBookmarksToChangeset => Some(NodeType::PublishedBookmarks),
            EdgeType::PublishedBookmarksToBonsaiHgMapping => Some(NodeType::PublishedBookmarks),
            EdgeType::HgBonsaiMappingToChangeset => Some(NodeType::HgBonsaiMapping),
            EdgeType::HgChangesetToHgParent => Some(NodeType::HgChangeset),
            EdgeType::HgChangesetToHgManifest => Some(NodeType::HgChangeset),
            EdgeType::HgChangesetToHgManifestFileNode => Some(NodeType::HgChangeset),
            EdgeType::HgChangesetViaBonsaiToHgChangeset => Some(NodeType::HgChangesetViaBonsai),
            EdgeType::HgManifestToHgFileEnvelope => Some(NodeType::HgManifest),
            EdgeType::HgManifestToHgFileNode => Some(NodeType::HgManifest),
            EdgeType::HgManifestToHgManifestFileNode => Some(NodeType::HgManifest),
            EdgeType::HgManifestToChildHgManifest => Some(NodeType::HgManifest),
            EdgeType::HgFileEnvelopeToFileContent => Some(NodeType::HgFileEnvelope),
            EdgeType::HgFileNodeToLinkedHgBonsaiMapping => Some(NodeType::HgFileNode),
            EdgeType::HgFileNodeToLinkedHgChangeset => Some(NodeType::HgFileNode),
            EdgeType::HgFileNodeToHgParentFileNode => Some(NodeType::HgFileNode),
            EdgeType::HgFileNodeToHgCopyfromFileNode => Some(NodeType::HgFileNode),
            EdgeType::HgManifestFileNodeToLinkedHgBonsaiMapping => Some(NodeType::HgManifestFileNode),
            EdgeType::HgManifestFileNodeToLinkedHgChangeset => Some(NodeType::HgManifestFileNode),
            EdgeType::HgManifestFileNodeToHgParentFileNode => Some(NodeType::HgManifestFileNode),
            EdgeType::HgManifestFileNodeToHgCopyfromFileNode => Some(NodeType::HgManifestFileNode),
            EdgeType::FileContentToFileContentMetadata => Some(NodeType::FileContent),
            EdgeType::FileContentMetadataToSha1Alias => Some(NodeType::FileContentMetadata),
            EdgeType::FileContentMetadataToSha256Alias => Some(NodeType::FileContentMetadata),
            EdgeType::FileContentMetadataToGitSha1Alias => Some(NodeType::FileContentMetadata),
            EdgeType::AliasContentMappingToFileContent => Some(NodeType::AliasContentMapping),
            EdgeType::BlameToChangeset => Some(NodeType::Blame),
            EdgeType::ChangesetInfoToChangesetInfoParent => Some(NodeType::ChangesetInfo),
            EdgeType::ChangesetInfoMappingToChangesetInfo => Some(NodeType::ChangesetInfoMapping),
            EdgeType::DeletedManifestToDeletedManifestChild => Some(NodeType::DeletedManifest),
            EdgeType::DeletedManifestToLinkedChangeset => Some(NodeType::DeletedManifest),
            EdgeType::DeletedManifestMappingToRootDeletedManifest => Some(NodeType::DeletedManifestMapping),
            EdgeType::FsnodeToChildFsnode => Some(NodeType::Fsnode),
            EdgeType::FsnodeToFileContent => Some(NodeType::Fsnode),
            EdgeType::FastlogBatchToChangeset => Some(NodeType::FastlogBatch),
            EdgeType::FastlogBatchToPreviousBatch => Some(NodeType::FastlogBatch),
            EdgeType::FastlogDirToChangeset => Some(NodeType::FastlogDir),
            EdgeType::FastlogDirToPreviousBatch => Some(NodeType::FastlogDir),
            EdgeType::FastlogFileToChangeset => Some(NodeType::FastlogFile),
            EdgeType::FastlogFileToPreviousBatch => Some(NodeType::FastlogFile),
            EdgeType::FsnodeMappingToRootFsnode => Some(NodeType::FsnodeMapping),
            EdgeType::SkeletonManifestToSkeletonManifestChild => Some(NodeType::SkeletonManifest),
            EdgeType::SkeletonManifestMappingToRootSkeletonManifest => Some(NodeType::SkeletonManifestMapping),
            EdgeType::UnodeFileToBlame => Some(NodeType::UnodeFile),
            EdgeType::UnodeFileToFastlogFile => Some(NodeType::UnodeFile),
            EdgeType::UnodeFileToFileContent => Some(NodeType::UnodeFile),
            EdgeType::UnodeFileToLinkedChangeset => Some(NodeType::UnodeFile),
            EdgeType::UnodeFileToUnodeFileParent => Some(NodeType::UnodeFile),
            EdgeType::UnodeManifestToFastlogDir => Some(NodeType::UnodeManifest),
            EdgeType::UnodeManifestToUnodeFileChild => Some(NodeType::UnodeManifest),
            EdgeType::UnodeManifestToUnodeManifestChild => Some(NodeType::UnodeManifest),
            EdgeType::UnodeManifestToUnodeManifestParent => Some(NodeType::UnodeManifest),
            EdgeType::UnodeManifestToLinkedChangeset => Some(NodeType::UnodeManifest),
            EdgeType::UnodeMappingToRootUnodeManifest => Some(NodeType::UnodeMapping),
        }
    }

    pub fn outgoing_type(&self) -> (r: NodeType)
        ensures
            r == self.target(),
    {
        match self {
            EdgeType::RootToBookmark => NodeType::Bookmark,
            EdgeType::RootToChangeset => NodeType::Changeset,
            EdgeType::RootToBonsaiHgMapping => NodeType::BonsaiHgMapping,
            EdgeType::RootToPhaseMapping => NodeType::PhaseMapping,
            EdgeType::RootToPublishedBookmarks => NodeType::PublishedBookmarks,
            EdgeType::RootToHgBonsaiMapping => NodeType::HgBonsaiMapping,
            EdgeType::RootToHgChangeset => NodeType::HgChangeset,
            EdgeType::RootToHgChangesetViaBonsai => NodeType::HgChangesetViaBonsai,
            EdgeType::RootToHgManifest => NodeType::HgManifest,
            EdgeType::RootToHgFileEnvelope => NodeType::HgFileEnvelope,
            EdgeType::RootToHgFileNode => NodeType::HgFileNode,
            EdgeType::RootToHgManifestFileNode => NodeType::HgManifestFileNode,
            EdgeType::RootToFileContent => NodeType::FileContent,
            EdgeType::RootToFileContentMetadata => NodeType::FileContentMetadata,
            EdgeType::RootToAliasContentMapping => NodeType::AliasContentMapping,
            EdgeType::RootToBlame => NodeType::Blame,
            EdgeType::RootToChangesetInfo => NodeType::ChangesetInfo,
            EdgeType::RootToChangesetInfoMapping => NodeType::ChangesetInfoMapping,
            EdgeType::RootToDeletedManifest => NodeType::DeletedManifest,
            EdgeType::RootToDeletedManifestMapping => NodeType::DeletedManifestMapping,
            EdgeType::RootToFastlogBatch => NodeType::FastlogBatch,
            EdgeType::RootToFastlogDir => NodeType::FastlogDir,
            EdgeType::RootToFastlogFile => NodeType::FastlogFile,
            EdgeType::RootToFsnode => NodeType::Fsnode,
            EdgeType::RootToFsnodeMapping => NodeType::FsnodeMapping,
            EdgeType::RootToSkeletonManifest => NodeType::SkeletonManifest,
            EdgeType::RootToSkeletonManifestMapping => NodeType::SkeletonManifestMapping,
            EdgeType::RootToUnodeFile => NodeType::UnodeFile,
            EdgeType::RootToUnodeManifest => NodeType::UnodeManifest,
            EdgeType::RootToUnodeMapping => NodeType::UnodeMapping,
            EdgeType::BookmarkToChangeset => NodeType::Changeset,
            EdgeType::BookmarkToBonsaiHgMapping => NodeType::BonsaiHgMapping,
            EdgeType::ChangesetToFileContent => NodeType::FileContent,
            EdgeType::ChangesetToBonsaiParent => NodeType::Changeset,
            EdgeType::ChangesetToBonsaiHgMapping => NodeType::BonsaiHgMapping,
            EdgeType::ChangesetToPhaseMapping => NodeType::PhaseMapping,
            EdgeType::ChangesetToChangesetInfo => NodeType::ChangesetInfo,
            EdgeType::ChangesetToChangesetInfoMapping => NodeType::ChangesetInfoMapping,
            EdgeType::ChangesetToDeletedManifestMapping => NodeType::DeletedManifestMapping,
            EdgeType::ChangesetToFsnodeMapping => NodeType::FsnodeMapping,
            EdgeType::ChangesetToSkeletonManifestMapping => NodeType::SkeletonManifestMapping,
            EdgeType::ChangesetToUnodeMapping => NodeType::UnodeMapping,
            EdgeType::BonsaiHgMappingToHgBonsaiMapping => NodeType::HgBonsaiMapping,
            EdgeType::BonsaiHgMappingToHgChangesetViaBonsai => NodeType::HgChangesetViaBonsai,
            EdgeType::PublishedBookmarksToChangeset => NodeType::Changeset,
            EdgeType::PublishedBookmarksToBonsaiHgMapping => NodeType::BonsaiHgMapping,
            EdgeType::HgBonsaiMappingToChangeset => NodeType::Changeset,
            EdgeType::HgChangesetToHgParent => NodeType::HgChangesetViaBonsai,
            EdgeType::HgChangesetToHgManifest => NodeType::HgManifest,
            EdgeType::HgChangesetToHgManifestFileNode => NodeType::HgManifestFileNode,
            EdgeType::HgChangesetViaBonsaiToHgChangeset => NodeType::HgChangeset,
            EdgeType::HgManifestToHgFileEnvelope => NodeType::HgFileEnvelope,
            EdgeType::HgManifestToHgFileNode => NodeType::HgFileNode,
            EdgeType::HgManifestToHgManifestFileNode => NodeType::HgManifestFileNode,
            EdgeType::HgManifestToChildHgManifest => NodeType::HgManifest,
            EdgeType::HgFileEnvelopeToFileContent => NodeType::FileContent,
            EdgeType::HgFileNodeToLinkedHgBonsaiMapping => NodeType::HgBonsaiMapping,
            EdgeType::HgFileNodeToLinkedHgChangeset => NodeType::HgChangesetViaBonsai,
            EdgeType::HgFileNodeToHgParentFileNode => NodeType::HgFileNode,
            EdgeType::HgFileNodeToHgCopyfromFileNode => NodeType::HgFileNode,
            EdgeType::HgManifestFileNodeToLinkedHgBonsaiMapping => NodeType::HgBonsaiMapping,
            EdgeType::HgManifestFileNodeToLinkedHgChangeset => NodeType::HgChangesetViaBonsai,
            EdgeType::HgManifestFileNodeToHgParentFileNode => NodeType::HgManifestFileNode,
            EdgeType::HgManifestFileNodeToHgCopyfromFileNode => NodeType::HgManifestFileNode,
            EdgeType::FileContentToFileContentMetadata => NodeType::FileContentMetadata,
            EdgeType::FileContentMetadataToSha1Alias => NodeType::AliasContentMapping,
            EdgeType::FileContentMetadataToSha256Alias => NodeType::AliasContentMapping,
            EdgeType::FileContentMetadataToGitSha1Alias => NodeType::AliasContentMapping,
            EdgeType::AliasContentMappingToFileContent => NodeType::FileContent,
            EdgeType::BlameToChangeset => NodeType::Changeset,
            EdgeType::ChangesetInfoToChangesetInfoParent => NodeType::ChangesetInfo,
            EdgeType::ChangesetInfoMappingToChangesetInfo => NodeType::ChangesetInfo,
            EdgeType::DeletedManifestToDeletedManifestChild => NodeType::DeletedManifest,
            EdgeType::DeletedManifestToLinkedChangeset => NodeType::Changeset,
            EdgeType::DeletedManifestMappingToRootDeletedManifest => NodeType::DeletedManifest,
            EdgeType::FsnodeToChildFsnode => NodeType::Fsnode,
            EdgeType::FsnodeToFileContent => NodeType::FileContent,
            EdgeType::FastlogBatchToChangeset => NodeType::Changeset,
            EdgeType::FastlogBatchToPreviousBatch => NodeType::FastlogBatch,
            EdgeType::FastlogDirToChangeset => NodeType::Changeset,
            EdgeType::FastlogDirToPreviousBatch => NodeType::FastlogBatch,
            EdgeType::FastlogFileToChangeset => NodeType::Changeset,
            EdgeType::FastlogFileToPreviousBatch => NodeType::FastlogBatch,
            EdgeType::FsnodeMappingToRootFsnode => NodeType::Fsnode,
            EdgeType::SkeletonManifestToSkeletonManifestChild => NodeType::SkeletonManifest,
            EdgeType::SkeletonManifestMappingToRootSkeletonManifest => NodeType::SkeletonManifest,
            EdgeType::UnodeFileToBlame => NodeType::Blame,
            EdgeType::UnodeFileToFastlogFile => NodeType::FastlogFile,
            EdgeType::UnodeFileToFileContent => NodeType::FileContent,
            EdgeType::UnodeFileToLinkedChangeset => NodeType::Changeset,
            EdgeType::UnodeFileToUnodeFileParent => NodeType::UnodeFile,
            EdgeType::UnodeManifestToFastlogDir => NodeType::FastlogDir,
            EdgeType::UnodeManifestToUnodeFileChild => NodeType::UnodeFile,
            EdgeType::UnodeManifestToUnodeManifestChild => NodeType::UnodeManifest,
            EdgeType::UnodeManifestToUnodeManifestParent => NodeType::UnodeManifest,
            EdgeType::UnodeManifestToLinkedChangeset => NodeType::Changeset,
            EdgeType::UnodeMappingToRootUnodeManifest => NodeType::UnodeManifest,
        }
    }

    pub open spec fn name(self) -> Seq<char> {
        match self {
            EdgeType::RootToBookmark => "RootToBookmark"@,
            EdgeType::RootToChangeset => "RootToChangeset"@,
            EdgeType::RootToBonsaiHgMapping => "RootToBonsaiHgMapping"@,
            EdgeType::RootToPhaseMapping => "RootToPhaseMapping"@,
            EdgeType::RootToPublishedBookmarks => "RootToPublishedBookmarks"@,
            EdgeType::RootToHgBonsaiMapping => "RootToHgBonsaiMapping"@,
            EdgeType::RootToHgChangeset => "RootToHgChangeset"@,
            EdgeType::RootToHgChangesetViaBonsai => "RootToHgChangesetViaBonsai"@,
            EdgeType::RootToHgManifest => "RootToHgManifest"@,
            EdgeType::RootToHgFileEnvelope => "RootToHgFileEnvelope"@,
            EdgeType::RootToHgFileNode => "RootToHgFileNode"@,
            EdgeType::RootToHgManifestFileNode => "RootToHgManifestFileNode"@,
            EdgeType::RootToFileContent => "RootToFileContent"@,
            EdgeType::RootToFileContentMetadata => "RootToFileContentMetadata"@,
            EdgeType::RootToAliasContentMapping => "RootToAliasContentMapping"@,
            EdgeType::RootToBlame => "RootToBlame"@,
            EdgeType::RootToChangesetInfo => "RootToChangesetInfo"@,
            EdgeType::RootToChangesetInfoMapping => "RootToChangesetInfoMapping"@,
            EdgeType::RootToDeletedManifest => "RootToDeletedManifest"@,
            EdgeType::RootToDeletedManifestMapping => "RootToDeletedManifestMapping"@,
            EdgeType::RootToFastlogBatch => "RootToFastlogBatch"@,
            EdgeType::RootToFastlogDir => "RootToFastlogDir"@,
            EdgeType::RootToFastlogFile => "RootToFastlogFile"@,
            EdgeType::RootToFsnode => "RootToFsnode"@,
            EdgeType::RootToFsnodeMapping => "RootToFsnodeMapping"@,
            EdgeType::RootToSkeletonManifest => "RootToSkeletonManifest"@,
            EdgeType::RootToSkeletonManifestMapping => "RootToSkeletonManifestMapping"@,
            EdgeType::RootToUnodeFile => "RootToUnodeFile"@,
            EdgeType::RootToUnodeManifest => "RootToUnodeManifest"@,
            EdgeType::RootToUnodeMapping => "RootToUnodeMapping"@,
            EdgeType::BookmarkToChangeset => "BookmarkToChangeset"@,
            EdgeType::BookmarkToBonsaiHgMapping => "BookmarkToBonsaiHgMapping"@,
            EdgeType::ChangesetToFileContent => "ChangesetToFileContent"@,
            EdgeType::ChangesetToBonsaiParent => "ChangesetToBonsaiParent"@,
            EdgeType::ChangesetToBonsaiHgMapping => "ChangesetToBonsaiHgMapping"@,
            EdgeType::ChangesetToPhaseMapping => "ChangesetToPhaseMapping"@,
            EdgeType::ChangesetToChangesetInfo => "ChangesetToChangesetInfo"@,
            EdgeType::ChangesetToChangesetInfoMapping => "ChangesetToChangesetInfoMapping"@,
            EdgeType::ChangesetToDeletedManifestMapping => "ChangesetToDeletedManifestMapping"@,
            EdgeType::ChangesetToFsnodeMapping => "ChangesetToFsnodeMapping"@,
            EdgeType::ChangesetToSkeletonManifestMapping => "ChangesetToSkeletonManifestMapping"@,
            EdgeType::ChangesetToUnodeMapping => "ChangesetToUnodeMapping"@,
            EdgeType::BonsaiHgMappingToHgBonsaiMapping => "BonsaiHgMappingToHgBonsaiMapping"@,
            EdgeType::BonsaiHgMappingToHgChangesetViaBonsai => "BonsaiHgMappingToHgChangesetViaBonsai"@,
            EdgeType::PublishedBookmarksToChangeset => "PublishedBookmarksToChangeset"@,
            EdgeType::PublishedBookmarksToBonsaiHgMapping => "PublishedBookmarksToBonsaiHgMapping"@,
            EdgeType::HgBonsaiMappingToChangeset => "HgBonsaiMappingToChangeset"@,
            EdgeType::HgChangesetToHgParent => "HgChangesetToHgParent"@,
            EdgeType::HgChangesetToHgManifest => "HgChangesetToHgManifest"@,
            EdgeType::HgChangesetToHgManifestFileNode => "HgChangesetToHgManifestFileNode"@,
            EdgeType::HgChangesetViaBonsaiToHgChangeset => "HgChangesetViaBonsaiToHgChangeset"@,
            EdgeType::HgManifestToHgFileEnvelope => "HgManifestToHgFileEnvelope"@,
            EdgeType::HgManifestToHgFileNode => "HgManifestToHgFileNode"@,
            EdgeType::HgManifestToHgManifestFileNode => "HgManifestToHgManifestFileNode"@,
            EdgeType::HgManifestToChildHgManifest => "HgManifestToChildHgManifest"@,
            EdgeType::HgFileEnvelopeToFileContent => "HgFileEnvelopeToFileContent"@,
            EdgeType::HgFileNodeToLinkedHgBonsaiMapping => "HgFileNodeToLinkedHgBonsaiMapping"@,
            EdgeType::HgFileNodeToLinkedHgChangeset => "HgFileNodeToLinkedHgChangeset"@,
            EdgeType::HgFileNodeToHgParentFileNode => "HgFileNodeToHgParentFileNode"@,
            EdgeType::HgFileNodeToHgCopyfromFileNode => "HgFileNodeToHgCopyfromFileNode"@,
            EdgeType::HgManifestFileNodeToLinkedHgBonsaiMapping => "HgManifestFileNodeToLinkedHgBonsaiMapping"@,
            EdgeType::HgManifestFileNodeToLinkedHgChangeset => "HgManifestFileNodeToLinkedHgChangeset"@,
            EdgeType::HgManifestFileNodeToHgParentFileNode => "HgManifestFileNodeToHgParentFileNode"@,
            EdgeType::HgManifestFileNodeToHgCopyfromFileNode => "HgManifestFileNodeToHgCopyfromFileNode"@,
            EdgeType::FileContentToFileContentMetadata => "FileContentToFileContentMetadata"@,
            EdgeType::FileContentMetadataToSha1Alias => "FileContentMetadataToSha1Alias"@,
            EdgeType::FileContentMetadataToSha256Alias => "FileContentMetadataToSha256Alias"@,
            EdgeType::FileContentMetadataToGitSha1Alias => "FileContentMetadataToGitSha1Alias"@,
            EdgeType::AliasContentMappingToFileContent => "AliasContentMappingToFileContent"@,
            EdgeType::BlameToChangeset => "BlameToChangeset"@,
            EdgeType::ChangesetInfoToChangesetInfoParent => "ChangesetInfoToChangesetInfoParent"@,
            EdgeType::ChangesetInfoMappingToChangesetInfo => "ChangesetInfoMappingToChangesetInfo"@,
            EdgeType::DeletedManifestToDeletedManifestChild => "DeletedManifestToDeletedManifestChild"@,
            EdgeType::DeletedManifestToLinkedChangeset => "DeletedManifestToLinkedChangeset"@,
            EdgeType::DeletedManifestMappingToRootDeletedManifest => "DeletedManifestMappingToRootDeletedManifest"@,
            EdgeType::FsnodeToChildFsnode => "FsnodeToChildFsnode"@,
            EdgeType::FsnodeToFileContent => "FsnodeToFileContent"@,
            EdgeType::FastlogBatchToChangeset => "FastlogBatchToChangeset"@,
            EdgeType::FastlogBatchToPreviousBatch => "FastlogBatchToPreviousBatch"@,
            EdgeType::FastlogDirToChangeset => "FastlogDirToChangeset"@,
            EdgeType::FastlogDirToPreviousBatch => "FastlogDirToPreviousBatch"@,
            EdgeType::FastlogFileToChangeset => "FastlogFileToChangeset"@,
            EdgeType::FastlogFileToPreviousBatch => "FastlogFileToPreviousBatch"@,
            EdgeType::FsnodeMappingToRootFsnode => "FsnodeMappingToRootFsnode"@,
            EdgeType::SkeletonManifestToSkeletonManifestChild => "SkeletonManifestToSkeletonManifestChild"@,
            EdgeType::SkeletonManifestMappingToRootSkeletonManifest => "SkeletonManifestMappingToRootSkeletonManifest"@,
            EdgeType::UnodeFileToBlame => "UnodeFileToBlame"@,
            EdgeType::UnodeFileToFastlogFile => "UnodeFileToFastlogFile"@,
            EdgeType::UnodeFileToFileContent => "UnodeFileToFileContent"@,
            EdgeType::UnodeFileToLinkedChangeset => "UnodeFileToLinkedChangeset"@,
            EdgeType::UnodeFileToUnodeFileParent => "UnodeFileToUnodeFileParent"@,
            EdgeType::UnodeManifestToFastlogDir => "UnodeManifestToFastlogDir"@,
            EdgeType::UnodeManifestToUnodeFileChild => "UnodeManifestToUnodeFileChild"@,
            EdgeType::UnodeManifestToUnodeManifestChild => "UnodeManifestToUnodeManifestChild"@,
            EdgeType::UnodeManifestToUnodeManifestParent => "UnodeManifestToUnodeManifestParent"@,
            EdgeType::UnodeManifestToLinkedChangeset => "UnodeManifestToLinkedChangeset"@,
            EdgeType::UnodeMappingToRootUnodeManifest => "UnodeMappingToRootUnodeManifest"@,
        }
    }

    /// The edge's name.
    pub fn as_str(&self) -> (r: &'static str)
        ensures
            r@ == self.name(),
    {
        proof {
            reveal_strlit("RootToBookmark");
            reveal_strlit("RootToChangeset");
            reveal_strlit("RootToBonsaiHgMapping");
            reveal_strlit("RootToPhaseMapping");
            reveal_strlit("RootToPublishedBookmarks");
            reveal_strlit("RootToHgBonsaiMapping");
            reveal_strlit("RootToHgChangeset");
            reveal_strlit("RootToHgChangesetViaBonsai");
            reveal_strlit("RootToHgManifest");
            reveal_strlit("RootToHgFileEnvelope");
            reveal_strlit("RootToHgFileNode");
            reveal_strlit("RootToHgManifestFileNode");
            reveal_strlit("RootToFileContent");
            reveal_strlit("RootToFileContentMetadata");
            reveal_strlit("RootToAliasContentMapping");
            reveal_strlit("RootToBlame");
            reveal_strlit("RootToChangesetInfo");
            reveal_strlit("RootToChangesetInfoMapping");
            reveal_strlit("RootToDeletedManifest");
            reveal_strlit("RootToDeletedManifestMapping");
            reveal_strlit("RootToFastlogBatch");
            reveal_strlit("RootToFastlogDir");
            reveal_strlit("RootToFastlogFile");
            reveal_strlit("RootToFsnode");
            reveal_strlit("RootToFsnodeMapping");
            reveal_strlit("RootToSkeletonManifest");
            reveal_strlit("RootToSkeletonManifestMapping");
            reveal_strlit("RootToUnodeFile");
            reveal_strlit("RootToUnodeManifest");
            reveal_strlit("RootToUnodeMapping");
            reveal_strlit("BookmarkToChangeset");
            reveal_strlit("BookmarkToBonsaiHgMapping");
            reveal_strlit("ChangesetToFileContent");
            reveal_strlit("ChangesetToBonsaiParent");
            reveal_strlit("ChangesetToBonsaiHgMapping");
            reveal_strlit("ChangesetToPhaseMapping");
            reveal_strlit("ChangesetToChangesetInfo");
            reveal_strlit("ChangesetToChangesetInfoMapping");
            reveal_strlit("ChangesetToDeletedManifestMapping");
            reveal_strlit("ChangesetToFsnodeMapping");
            reveal_strlit("ChangesetToSkeletonManifestMapping");
            reveal_strlit("ChangesetToUnodeMapping");
            reveal_strlit("BonsaiHgMappingToHgBonsaiMapping");
            reveal_strlit("BonsaiHgMappingToHgChangesetViaBonsai");
            reveal_strlit("PublishedBookmarksToChangeset");
            reveal_strlit("PublishedBookmarksToBonsaiHgMapping");
            reveal_strlit("HgBonsaiMappingToChangeset");
            reveal_strlit("HgChangesetToHgParent");
            reveal_strlit("HgChangesetToHgManifest");
            reveal_strlit("HgChangesetToHgManifestFileNode");
            reveal_strlit("HgChangesetViaBonsaiToHgChangeset");
            reveal_strlit("HgManifestToHgFileEnvelope");
            reveal_strlit("HgManifestToHgFileNode");
            reveal_strlit("HgManifestToHgManifestFileNode");
            reveal_strlit("HgManifestToChildHgManifest");
            reveal_strlit("HgFileEnvelopeToFileContent");
            reveal_strlit("HgFileNodeToLinkedHgBonsaiMapping");
            reveal_strlit("HgFileNodeToLinkedHgChangeset");
            reveal_strlit("HgFileNodeToHgParentFileNode");
            reveal_strlit("HgFileNodeToHgCopyfromFileNode");
            reveal_strlit("HgManifestFileNodeToLinkedHgBonsaiMapping");
            reveal_strlit("HgManifestFileNodeToLinkedHgChangeset");
            reveal_strlit("HgManifestFileNodeToHgParentFileNode");
            reveal_strlit("HgManifestFileNodeToHgCopyfromFileNode");
            reveal_strlit("FileContentToFileContentMetadata");
            reveal_strlit("FileContentMetadataToSha1Alias");
            reveal_strlit("FileContentMetadataToSha256Alias");
            reveal_strlit("FileContentMetadataToGitSha1Alias");
            reveal_strlit("AliasContentMappingToFileContent");
            reveal_strlit("BlameToChangeset");
            reveal_strlit("ChangesetInfoToChangesetInfoParent");
            reveal_strlit("ChangesetInfoMappingToChangesetInfo");
            reveal_strlit("DeletedManifestToDeletedManifestChild");
            reveal_strlit("DeletedManifestToLinkedChangeset");
            reveal_strlit("DeletedManifestMappingToRootDeletedManifest");
            reveal_strlit("FsnodeToChildFsnode");
            reveal_strlit("FsnodeToFileContent");
            reveal_strlit("FastlogBatchToChangeset");
            reveal_strlit("FastlogBatchToPreviousBatch");
            reveal_strlit("FastlogDirToChangeset");
            reveal_strlit("FastlogDirToPreviousBatch");
            reveal_strlit("FastlogFileToChangeset");
            reveal_strlit("FastlogFileToPreviousBatch");
            reveal_strlit("FsnodeMappingToRootFsnode");
            reveal_strlit("SkeletonManifestToSkeletonManifestChild");
            reveal_strlit("SkeletonManifestMappingToRootSkeletonManifest");
            reveal_strlit("UnodeFileToBlame");
            reveal_strlit("UnodeFileToFastlogFile");
            reveal_strlit("UnodeFileToFileContent");
            reveal_strlit("UnodeFileToLinkedChangeset");
            reveal_strlit("UnodeFileToUnodeFileParent");
            reveal_strlit("UnodeManifestToFastlogDir");
            reveal_strlit("UnodeManifestToUnodeFileChild");
            reveal_strlit("UnodeManifestToUnodeManifestChild");
            reveal_strlit("UnodeManifestToUnodeManifestParent");
            reveal_strlit("UnodeManifestToLinkedChangeset");
            reveal_strlit("UnodeMappingToRootUnodeManifest");
        }
        match self {
            EdgeType::RootToBookmark => "RootToBookmark",
            EdgeType::RootToChangeset => "RootToChangeset",
            EdgeType::RootToBonsaiHgMapping => "RootToBonsaiHgMapping",
            EdgeType::RootToPhaseMapping => "RootToPhaseMapping",
            EdgeType::RootToPublishedBookmarks => "RootToPublishedBookmarks",
            EdgeType::RootToHgBonsaiMapping => "RootToHgBonsaiMapping",
            EdgeType::RootToHgChangeset => "RootToHgChangeset",
            EdgeType::RootToHgChangesetViaBonsai => "RootToHgChangesetViaBonsai",
            EdgeType::RootToHgManifest => "RootToHgManifest",
            EdgeType::RootToHgFileEnvelope => "RootToHgFileEnvelope",
            EdgeType::RootToHgFileNode => "RootToHgFileNode",
            EdgeType::RootToHgManifestFileNode => "RootToHgManifestFileNode",
            EdgeType::RootToFileContent => "RootToFileContent",
            EdgeType::RootToFileContentMetadata => "RootToFileContentMetadata",
            EdgeType::RootToAliasContentMapping => "RootToAliasContentMapping",
            EdgeType::RootToBlame => "RootToBlame",
            EdgeType::RootToChangesetInfo => "RootToChangesetInfo",
            EdgeType::RootToChangesetInfoMapping => "RootToChangesetInfoMapping",
            EdgeType::RootToDeletedManifest => "RootToDeletedManifest",
            EdgeType::RootToDeletedManifestMapping => "RootToDeletedManifestMapping",
            EdgeType::RootToFastlogBatch => "RootToFastlogBatch",
            EdgeType::RootToFastlogDir => "RootToFastlogDir",
            EdgeType::RootToFastlogFile => "RootToFastlogFile",
            EdgeType::RootToFsnode => "RootToFsnode",
            EdgeType::RootToFsnodeMapping => "RootToFsnodeMapping",
            EdgeType::RootToSkeletonManifest => "RootToSkeletonManifest",
            EdgeType::RootToSkeletonManifestMapping => "RootToSkeletonManifestMapping",
            EdgeType::RootToUnodeFile => "RootToUnodeFile",
            EdgeType::RootToUnodeManifest => "RootToUnodeManifest",
            EdgeType::RootToUnodeMapping => "RootToUnodeMapping",
            EdgeType::BookmarkToChangeset => "BookmarkToChangeset",
            EdgeType::BookmarkToBonsaiHgMapping => "BookmarkToBonsaiHgMapping",
            EdgeType::ChangesetToFileContent => "ChangesetToFileContent",
            EdgeType::ChangesetToBonsaiParent => "ChangesetToBonsaiParent",
            EdgeType::ChangesetToBonsaiHgMapping => "ChangesetToBonsaiHgMapping",
            EdgeType::ChangesetToPhaseMapping => "ChangesetToPhaseMapping",
            EdgeType::ChangesetToChangesetInfo => "ChangesetToChangesetInfo",
            EdgeType::ChangesetToChangesetInfoMapping => "ChangesetToChangesetInfoMapping",
            EdgeType::ChangesetToDeletedManifestMapping => "ChangesetToDeletedManifestMapping",
            EdgeType::ChangesetToFsnodeMapping => "ChangesetToFsnodeMapping",
            EdgeType::ChangesetToSkeletonManifestMapping => "ChangesetToSkeletonManifestMapping",
            EdgeType::ChangesetToUnodeMapping => "ChangesetToUnodeMapping",
            EdgeType::BonsaiHgMappingToHgBonsaiMapping => "BonsaiHgMappingToHgBonsaiMapping",
            EdgeType::BonsaiHgMappingToHgChangesetViaBonsai => "BonsaiHgMappingToHgChangesetViaBonsai",
            EdgeType::PublishedBookmarksToChangeset => "PublishedBookmarksToChangeset",
            EdgeType::PublishedBookmarksToBonsaiHgMapping => "PublishedBookmarksToBonsaiHgMapping",
            EdgeType::HgBonsaiMappingToChangeset => "HgBonsaiMappingToChangeset",
            EdgeType::HgChangesetToHgParent => "HgChangesetToHgParent",
            EdgeType::HgChangesetToHgManifest => "HgChangesetToHgManifest",
            EdgeType::HgChangesetToHgManifestFileNode => "HgChangesetToHgManifestFileNode",
            EdgeType::HgChangesetViaBonsaiToHgChangeset => "HgChangesetViaBonsaiToHgChangeset",
            EdgeType::HgManifestToHgFileEnvelope => "HgManifestToHgFileEnvelope",
            EdgeType::HgManifestToHgFileNode => "HgManifestToHgFileNode",
            EdgeType::HgManifestToHgManifestFileNode => "HgManifestToHgManifestFileNode",
            EdgeType::HgManifestToChildHgManifest => "HgManifestToChildHgManifest",
            EdgeType::HgFileEnvelopeToFileContent => "HgFileEnvelopeToFileContent",
            EdgeType::HgFileNodeToLinkedHgBonsaiMapping => "HgFileNodeToLinkedHgBonsaiMapping",
            EdgeType::HgFileNodeToLinkedHgChangeset => "HgFileNodeToLinkedHgChangeset",
            EdgeType::HgFileNodeToHgParentFileNode => "HgFileNodeToHgParentFileNode",
            EdgeType::HgFileNodeToHgCopyfromFileNode => "HgFileNodeToHgCopyfromFileNode",
            EdgeType::HgManifestFileNodeToLinkedHgBonsaiMapping => "HgManifestFileNodeToLinkedHgBonsaiMapping",
            EdgeType::HgManifestFileNodeToLinkedHgChangeset => "HgManifestFileNodeToLinkedHgChangeset",
            EdgeType::HgManifestFileNodeToHgParentFileNode => "HgManifestFileNodeToHgParentFileNode",
            EdgeType::HgManifestFileNodeToHgCopyfromFileNode => "HgManifestFileNodeToHgCopyfromFileNode",
            EdgeType::FileContentToFileContentMetadata => "FileContentToFileContentMetadata",
            EdgeType::FileContentMetadataToSha1Alias => "FileContentMetadataToSha1Alias",
            EdgeType::FileContentMetadataToSha256Alias => "FileContentMetadataToSha256Alias",
            EdgeType::FileContentMetadataToGitSha1Alias => "FileContentMetadataToGitSha1Alias",
            EdgeType::AliasContentMappingToFileContent => "AliasContentMappingToFileContent",
            EdgeType::BlameToChangeset => "BlameToChangeset",
            EdgeType::ChangesetInfoToChangesetInfoParent => "ChangesetInfoToChangesetInfoParent",
            EdgeType::ChangesetInfoMappingToChangesetInfo => "ChangesetInfoMappingToChangesetInfo",
            EdgeType::DeletedManifestToDeletedManifestChild => "DeletedManifestToDeletedManifestChild",
            EdgeType::DeletedManifestToLinkedChangeset => "DeletedManifestToLinkedChangeset",
            EdgeType::DeletedManifestMappingToRootDeletedManifest => "DeletedManifestMappingToRootDeletedManifest",
            EdgeType::FsnodeToChildFsnode => "FsnodeToChildFsnode",
            EdgeType::FsnodeToFileContent => "FsnodeToFileContent",
            EdgeType::FastlogBatchToChangeset => "FastlogBatchToChangeset",
            EdgeType::FastlogBatchToPreviousBatch => "FastlogBatchToPreviousBatch",
            EdgeType::FastlogDirToChangeset => "FastlogDirToChangeset",
            EdgeType::FastlogDirToPreviousBatch => "FastlogDirToPreviousBatch",
            EdgeType::FastlogFileToChangeset => "FastlogFileToChangeset",
            EdgeType::FastlogFileToPreviousBatch => "FastlogFileToPreviousBatch",
            EdgeType::FsnodeMappingToRootFsnode => "FsnodeMappingToRootFsnode",
            EdgeType::SkeletonManifestToSkeletonManifestChild => "SkeletonManifestToSkeletonManifestChild",
            EdgeType::SkeletonManifestMappingToRootSkeletonManifest => "SkeletonManifestMappingToRootSkeletonManifest",
            EdgeType::UnodeFileToBlame => "UnodeFileToBlame",
            EdgeType::UnodeFileToFastlogFile => "UnodeFileToFastlogFile",
            EdgeType::UnodeFileToFileContent => "UnodeFileToFileContent",
            EdgeType::UnodeFileToLinkedChangeset => "UnodeFileToLinkedChangeset",
            EdgeType::UnodeFileToUnodeFileParent => "UnodeFileToUnodeFileParent",
            EdgeType::UnodeManifestToFastlogDir => "UnodeManifestToFastlogDir",
            EdgeType::UnodeManifestToUnodeFileChild => "UnodeManifestToUnodeFileChild",
            EdgeType::UnodeManifestToUnodeManifestChild => "UnodeManifestToUnodeManifestChild",
            EdgeType::UnodeManifestToUnodeManifestParent => "UnodeManifestToUnodeManifestParent",
            EdgeType::UnodeManifestToLinkedChangeset => "UnodeManifestToLinkedChangeset",
            EdgeType::UnodeMappingToRootUnodeManifest => "UnodeMappingToRootUnodeManifest",
        }
    }
}

/// Every declared edge leads to a concrete (non-`Root`) kind, and its
/// incoming kind is the kind whose declaration lists it (`None` for `Root`).
pub proof fn lemma_declared_edges_well_typed(k: NodeType, i: int)
    requires
        0 <= i < k.declared_edges().len(),
    ensures
        k.declared_edges()[i].target() != NodeType::Root,
        k.declared_edges()[i].source() == (if k == NodeType::Root {
            None
        } else {
            Some(k)
        }),
{
}

/// Every edge kind is listed by the declaration of its source kind.
pub proof fn lemma_every_edge_declared(e: EdgeType)
    ensures
        e.source() is None ==> NodeType::Root.declared_edges().contains(e),
        e.source() is Some ==> e.source().unwrap().declared_edges().contains(e),
{
    match e {
        EdgeType::RootToBookmark => assert(NodeType::Root.declared_edges()[0] == e),
        EdgeType::RootToChangeset => assert(NodeType::Root.declared_edges()[1] == e),
        EdgeType::RootToBonsaiHgMapping => assert(NodeType::Root.declared_edges()[2] == e),
        EdgeType::RootToPhaseMapping => assert(NodeType::Root.declared_edges()[3] == e),
        EdgeType::RootToPublishedBookmarks => assert(NodeType::Root.declared_edges()[4] == e),
        EdgeType::RootToHgBonsaiMapping => assert(NodeType::Root.declared_edges()[5] == e),
        EdgeType::RootToHgChangeset => assert(NodeType::Root.declared_edges()[6] == e),
        EdgeType::RootToHgChangesetViaBonsai => assert(NodeType::Root.declared_edges()[7] == e),
        EdgeType::RootToHgManifest => assert(NodeType::Root.declared_edges()[8] == e),
        EdgeType::RootToHgFileEnvelope => assert(NodeType::Root.declared_edges()[9] == e),
        EdgeType::RootToHgFileNode => assert(NodeType::Root.declared_edges()[10] == e),
        EdgeType::RootToHgManifestFileNode => assert(NodeType::Root.declared_edges()[11] == e),
        EdgeType::RootToFileContent => assert(NodeType::Root.declared_edges()[12] == e),
        EdgeType::RootToFileContentMetadata => assert(NodeType::Root.declared_edges()[13] == e),
        EdgeType::RootToAliasContentMapping => assert(NodeType::Root.declared_edges()[14] == e),
        EdgeType::RootToBlame => assert(NodeType::Root.declared_edges()[15] == e),
        EdgeType::RootToChangesetInfo => assert(NodeType::Root.declared_edges()[16] == e),
        EdgeType::RootToChangesetInfoMapping => assert(NodeType::Root.declared_edges()[17] == e),
        EdgeType::RootToDeletedManifest => assert(NodeType::Root.declared_edges()[18] == e),
        EdgeType::RootToDeletedManifestMapping => assert(NodeType::Root.declared_edges()[19] == e),
        EdgeType::RootToFastlogBatch => assert(NodeType::Root.declared_edges()[20] == e),
        EdgeType::RootToFastlogDir => assert(NodeType::Root.declared_edges()[21] == e),
        EdgeType::RootToFastlogFile => assert(NodeType::Root.declared_edges()[22] == e),
        EdgeType::RootToFsnode => assert(NodeType::Root.declared_edges()[23] == e),
        EdgeType::RootToFsnodeMapping => assert(NodeType::Root.declared_edges()[24] == e),
        EdgeType::RootToSkeletonManifest => assert(NodeType::Root.declared_edges()[25] == e),
        EdgeType::RootToSkeletonManifestMapping => assert(NodeType::Root.declared_edges()[26] == e),
        EdgeType::RootToUnodeFile => assert(NodeType::Root.declared_edges()[27] == e),
        EdgeType::RootToUnodeManifest => assert(NodeType::Root.declared_edges()[28] == e),
        EdgeType::RootToUnodeMapping => assert(NodeType::Root.declared_edges()[29] == e),
        EdgeType::BookmarkToChangeset => assert(NodeType::Bookmark.declared_edges()[0] == e),
        EdgeType::BookmarkToBonsaiHgMapping => assert(NodeType::Bookmark.declared_edges()[1] == e),
        EdgeType::ChangesetToFileContent => assert(NodeType::Changeset.declared_edges()[0] == e),
        EdgeType::ChangesetToBonsaiParent => assert(NodeType::Changeset.declared_edges()[1] == e),
        EdgeType::ChangesetToBonsaiHgMapping => assert(NodeType::Changeset.declared_edges()[2] == e),
        EdgeType::ChangesetToPhaseMapping => assert(NodeType::Changeset.declared_edges()[3] == e),
        EdgeType::ChangesetToChangesetInfo => assert(NodeType::Changeset.declared_edges()[4] == e),
        EdgeType::ChangesetToChangesetInfoMapping => assert(NodeType::Changeset.declared_edges()[5] == e),
        EdgeType::ChangesetToDeletedManifestMapping => assert(NodeType::Changeset.declared_edges()[6] == e),
        EdgeType::ChangesetToFsnodeMapping => assert(NodeType::Changeset.declared_edges()[7] == e),
        EdgeType::ChangesetToSkeletonManifestMapping => assert(NodeType::Changeset.declared_edges()[8] == e),
        EdgeType::ChangesetToUnodeMapping => assert(NodeType::Changeset.declared_edges()[9] == e),
        EdgeType::BonsaiHgMappingToHgBonsaiMapping => assert(NodeType::BonsaiHgMapping.declared_edges()[0] == e),
        EdgeType::BonsaiHgMappingToHgChangesetViaBonsai => assert(NodeType::BonsaiHgMapping.declared_edges()[1] == e),
        EdgeType::PublishedBookmarksToChangeset => assert(NodeType::PublishedBookmarks.declared_edges()[0] == e),
        EdgeType::PublishedBookmarksToBonsaiHgMapping => assert(NodeType::PublishedBookmarks.declared_edges()[1] == e),
        EdgeType::HgBonsaiMappingToChangeset => assert(NodeType::HgBonsaiMapping.declared_edges()[0] == e),
        EdgeType::HgChangesetToHgParent => assert(NodeType::HgChangeset.declared_edges()[0] == e),
        EdgeType::HgChangesetToHgManifest => assert(NodeType::HgChangeset.declared_edges()[1] == e),
        EdgeType::HgChangesetToHgManifestFileNode => assert(NodeType::HgChangeset.declared_edges()[2] == e),
        EdgeType::HgChangesetViaBonsaiToHgChangeset => assert(NodeType::HgChangesetViaBonsai.declared_edges()[0] == e),
        EdgeType::HgManifestToHgFileEnvelope => assert(NodeType::HgManifest.declared_edges()[0] == e),
        EdgeType::HgManifestToHgFileNode => assert(NodeType::HgManifest.declared_edges()[1] == e),
        EdgeType::HgManifestToHgManifestFileNode => assert(NodeType::HgManifest.declared_edges()[2] == e),
        EdgeType::HgManifestToChildHgManifest => assert(NodeType::HgManifest.declared_edges()[3] == e),
        EdgeType::HgFileEnvelopeToFileContent => assert(NodeType::HgFileEnvelope.declared_edges()[0] == e),
        EdgeType::HgFileNodeToLinkedHgBonsaiMapping => assert(NodeType::HgFileNode.declared_edges()[0] == e),
        EdgeType::HgFileNodeToLinkedHgChangeset => assert(NodeType::HgFileNode.declared_edges()[1] == e),
        EdgeType::HgFileNodeToHgParentFileNode => assert(NodeType::HgFileNode.declared_edges()[2] == e),
        EdgeType::HgFileNodeToHgCopyfromFileNode => assert(NodeType::HgFileNode.declared_edges()[3] == e),
        EdgeType::HgManifestFileNodeToLinkedHgBonsaiMapping => assert(NodeType::HgManifestFileNode.declared_edges()[0] == e),
        EdgeType::HgManifestFileNodeToLinkedHgChangeset => assert(NodeType::HgManifestFileNode.declared_edges()[1] == e),
        EdgeType::HgManifestFileNodeToHgParentFileNode => assert(NodeType::HgManifestFileNode.declared_edges()[2] == e),
        EdgeType::HgManifestFileNodeToHgCopyfromFileNode => assert(NodeType::HgManifestFileNode.declared_edges()[3] == e),
        EdgeType::FileContentToFileContentMetadata => assert(NodeType::FileContent.declared_edges()[0] == e),
        EdgeType::FileContentMetadataToSha1Alias => assert(NodeType::FileContentMetadata.declared_edges()[0] == e),
        EdgeType::FileContentMetadataToSha256Alias => assert(NodeType::FileContentMetadata.declared_edges()[1] == e),
        EdgeType::FileContentMetadataToGitSha1Alias => assert(NodeType::FileContentMetadata.declared_edges()[2] == e),
        EdgeType::AliasContentMappingToFileContent => assert(NodeType::AliasContentMapping.declared_edges()[0] == e),
        EdgeType::BlameToChangeset => assert(NodeType::Blame.declared_edges()[0] == e),
        EdgeType::ChangesetInfoToChangesetInfoParent => assert(NodeType::ChangesetInfo.declared_edges()[0] == e),
        EdgeType::ChangesetInfoMappingToChangesetInfo => assert(NodeType::ChangesetInfoMapping.declared_edges()[0] == e),
        EdgeType::DeletedManifestToDeletedManifestChild => assert(NodeType::DeletedManifest.declared_edges()[0] == e),
        EdgeType::DeletedManifestToLinkedChangeset => assert(NodeType::DeletedManifest.declared_edges()[1] == e),
        EdgeType::DeletedManifestMappingToRootDeletedManifest => assert(NodeType::DeletedManifestMapping.declared_edges()[0] == e),
        EdgeType::FsnodeToChildFsnode => assert(NodeType::Fsnode.declared_edges()[0] == e),
        EdgeType::FsnodeToFileContent => assert(NodeType::Fsnode.declared_edges()[1] == e),
        EdgeType::FastlogBatchToChangeset => assert(NodeType::FastlogBatch.declared_edges()[0] == e),
        EdgeType::FastlogBatchToPreviousBatch => assert(NodeType::FastlogBatch.declared_edges()[1] == e),
        EdgeType::FastlogDirToChangeset => assert(NodeType::FastlogDir.declared_edges()[0] == e),
        EdgeType::FastlogDirToPreviousBatch => assert(NodeType::FastlogDir.declared_edges()[1] == e),
        EdgeType::FastlogFileToChangeset => assert(NodeType::FastlogFile.declared_edges()[0] == e),
        EdgeType::FastlogFileToPreviousBatch => assert(NodeType::FastlogFile.declared_edges()[1] == e),
        EdgeType::FsnodeMappingToRootFsnode => assert(NodeType::FsnodeMapping.declared_edges()[0] == e),
        EdgeType::SkeletonManifestToSkeletonManifestChild => assert(NodeType::SkeletonManifest.declared_edges()[0] == e),
        EdgeType::SkeletonManifestMappingToRootSkeletonManifest => assert(NodeType::SkeletonManifestMapping.declared_edges()[0] == e),
        EdgeType::UnodeFileToBlame => assert(NodeType::UnodeFile.declared_edges()[0] == e),
        EdgeType::UnodeFileToFastlogFile => assert(NodeType::UnodeFile.declared_edges()[1] == e),
        EdgeType::UnodeFileToFileContent => assert(NodeType::UnodeFile.declared_edges()[2] == e),
        EdgeType::UnodeFileToLinkedChangeset => assert(NodeType::UnodeFile.declared_edges()[3] == e),
        EdgeType::UnodeFileToUnodeFileParent => assert(NodeType::UnodeFile.declared_edges()[4] == e),
        EdgeType::UnodeManifestToFastlogDir => assert(NodeType::UnodeManifest.declared_edges()[0] == e),
        EdgeType::UnodeManifestToUnodeFileChild => assert(NodeType::UnodeManifest.declared_edges()[1] == e),
        EdgeType::UnodeManifestToUnodeManifestChild => assert(NodeType::UnodeManifest.declared_edges()[2] == e),
        EdgeType::UnodeManifestToUnodeManifestParent => assert(NodeType::UnodeManifest.declared_edges()[3] == e),
        EdgeType::UnodeManifestToLinkedChangeset => assert(NodeType::UnodeManifest.declared_edges()[4] == e),
        EdgeType::UnodeMappingToRootUnodeManifest => assert(NodeType::UnodeMapping.declared_edges()[0] == e),
    }
}

/// The root edge of a kind leaves `Root` and reaches that kind.
pub proof fn lemma_root_edge(k: NodeType)
    ensures
        k != NodeType::Root ==> k.root_edge() is Some,
        k.root_edge() is Some ==> k.root_edge().unwrap().source() is None
            && k.root_edge().unwrap().target() == k,
{
}

} // verus!
