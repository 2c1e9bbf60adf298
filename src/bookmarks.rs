//! Which bookmark moves a request may make: the fast-forward rule.
use crate::ids::{ChangesetId, TypedId};
use vstd::prelude::*;

verus! {

/// The old and new target of a bookmark update.
#[derive(Clone, Copy, Debug, PartialEq, Eq, Hash)]
pub struct BookmarkUpdateTargets {
    pub old: ChangesetId,
    pub new: ChangesetId,
}

/// Which kinds of bookmark updates are allowed for a request.
#[derive(Clone, Copy, Debug, PartialEq, Eq, Hash, Structural)]
pub enum BookmarkUpdatePolicy {
    /// Only fast-forward moves: the new target descends from the old one.
    FastForwardOnly,
    /// Any update that the repository's configuration permits for the
    /// bookmark.
    AnyPermittedByConfig,
}

/// Why a bookmark move was refused.
#[derive(Clone, Copy, Debug, PartialEq, Eq, Hash)]
pub enum BookmarkMovementError {
    NonFastForwardMove { from: ChangesetId, to: ChangesetId },
}

impl BookmarkUpdatePolicy {
    /// Whether the move must be a fast-forward: always under
    /// `FastForwardOnly`, else as the bookmark's configuration says.
    pub open spec fn fast_forward_only(self, bookmark_is_fast_forward_only: bool) -> bool {
        match self {
            BookmarkUpdatePolicy::FastForwardOnly => true,
            BookmarkUpdatePolicy::AnyPermittedByConfig => bookmark_is_fast_forward_only,
        }
    }

    /// Whether the move has to be checked for ancestry: it must be a
    /// fast-forward and it changes the target.
    pub fn needs_ancestry_check(
        &self,
        bookmark_is_fast_forward_only: bool,
        targets: &BookmarkUpdateTargets,
    ) -> (r: bool)
        ensures
            r == (self.fast_forward_only(bookmark_is_fast_forward_only) && targets.old.id_bytes()
                != targets.new.id_bytes()),
    {
        let fast_forward_only = match self {
            BookmarkUpdatePolicy::FastForwardOnly => true,
            BookmarkUpdatePolicy::AnyPermittedByConfig => bookmark_is_fast_forward_only,
        };
        fast_forward_only && !(targets.old.0 == targets.new.0)
    }

    /// Decides whether the update is permitted, given whether the old target
    /// is an ancestor of the new one (asked of the commit graph only when
    /// `needs_ancestry_check` says so; ignored otherwise).
    pub fn check_update_permitted(
        &self,
        bookmark_is_fast_forward_only: bool,
        targets: &BookmarkUpdateTargets,
        old_is_ancestor: bool,
    ) -> (r: Result<(), BookmarkMovementError>)
        ensures
            r is Ok <==> !(self.fast_forward_only(bookmark_is_fast_forward_only)
                && targets.old.id_bytes() != targets.new.id_bytes()) || old_is_ancestor,
            r is Err ==> r == Err::<(), BookmarkMovementError>(
                BookmarkMovementError::NonFastForwardMove { from: targets.old, to: targets.new },
            ),
    {
        if self.needs_ancestry_check(bookmark_is_fast_forward_only, targets) && !old_is_ancestor {
            return Err(BookmarkMovementError::NonFastForwardMove { from: targets.old, to: targets.new });
        }
        Ok(())
    }
}

} // verus!
